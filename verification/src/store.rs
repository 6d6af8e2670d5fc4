//! The claim store: an append-only collection of claims that enforces
//! at-most-one PDB id per university id and at-most-one claimant per PDB id.

use vstd::prelude::*;

use crate::text::str_eq;

verus! {

/// One persisted claim: a PDB id (stored uppercased), the university id that
/// claimed it, and the claimant's name.
pub struct Claim {
    pub pdb_id: String,
    pub university_id: String,
    pub claimant_name: String,
}

/// The mathematical content of a [`Claim`]: each field as a character
/// sequence.
pub ghost struct ClaimView {
    pub pdb_id: Seq<char>,
    pub university_id: Seq<char>,
    pub claimant_name: Seq<char>,
}

impl View for Claim {
    type V = ClaimView;

    open spec fn view(&self) -> ClaimView {
        ClaimView {
            pdb_id: self.pdb_id@,
            university_id: self.university_id@,
            claimant_name: self.claimant_name@,
        }
    }
}

impl Claim {
    /// A field-for-field copy of the claim.
    pub fn duplicate(&self) -> (r: Claim)
        ensures
            r@ == self@,
    {
        Claim {
            pdb_id: self.pdb_id.clone(),
            university_id: self.university_id.clone(),
            claimant_name: self.claimant_name.clone(),
        }
    }
}

/// A sequence of claims seen as their mathematical content.
pub open spec fn claims_view(s: Seq<Claim>) -> Seq<ClaimView> {
    s.map_values(|c: Claim| c@)
}

/// Some claim in `s` holds this PDB id.
pub open spec fn has_pdb(s: Seq<ClaimView>, pdb: Seq<char>) -> bool {
    exists|i: int| 0 <= i < s.len() && (#[trigger] s[i].pdb_id) == pdb
}

/// Some claim in `s` holds this university id.
pub open spec fn has_university_id(s: Seq<ClaimView>, id: Seq<char>) -> bool {
    exists|i: int| 0 <= i < s.len() && (#[trigger] s[i].university_id) == id
}

/// The PDB id stored for this university id (meaningful only where
/// `has_university_id` holds).
pub open spec fn pdb_for(s: Seq<ClaimView>, id: Seq<char>) -> Seq<char> {
    let i = choose|i: int| 0 <= i < s.len() && (#[trigger] s[i].university_id) == id;
    s[i].pdb_id
}

/// The store's two invariants: no two claims share a PDB id, and no two
/// claims share a university id.
pub open spec fn store_wf(s: Seq<ClaimView>) -> bool {
    forall|i: int, j: int|
        #![trigger s[i], s[j]]
        0 <= i < j < s.len() ==> s[i].pdb_id != s[j].pdb_id && s[i].university_id
            != s[j].university_id
}

/// The claim store. Claims are only ever appended, never changed or removed,
/// and an append that would break either uniqueness invariant is refused.
pub struct ClaimStore {
    claims: Vec<Claim>,
}

impl View for ClaimStore {
    type V = Seq<ClaimView>;

    closed spec fn view(&self) -> Seq<ClaimView> {
        claims_view(self.claims@)
    }
}

impl ClaimStore {
    /// Both uniqueness invariants hold of the stored claims.
    pub open spec fn wf(&self) -> bool {
        store_wf(self@)
    }

    /// An empty store.
    pub fn new() -> (r: ClaimStore)
        ensures
            r@ == Seq::<ClaimView>::empty(),
            r.wf(),
    {
        let r = ClaimStore { claims: Vec::new() };
        proof {
            assert(r@ =~= Seq::<ClaimView>::empty());
        }
        r
    }

    /// How many claims the store holds.
    pub fn len(&self) -> (r: usize)
        ensures
            r == self@.len(),
    {
        self.claims.len()
    }

    /// True exactly when some stored claim holds this PDB id.
    pub fn contains_pdb(&self, pdb: &str) -> (r: bool)
        ensures
            r == has_pdb(self@, pdb@),
    {
        let n = self.claims.len();
        let mut k: usize = 0;
        while k < n
            invariant
                k <= n,
                n == self@.len(),
                self@ == claims_view(self.claims@),
                forall|j: int| 0 <= j < k ==> (#[trigger] self@[j].pdb_id) != pdb@,
            decreases n - k,
        {
            if str_eq(self.claims[k].pdb_id.as_str(), pdb) {
                proof {
                    assert(self@[k as int].pdb_id == pdb@);
                }
                return true;
            }
            k += 1;
        }
        false
    }

    /// True exactly when some stored claim holds this university id.
    pub fn contains_university_id(&self, id: &str) -> (r: bool)
        ensures
            r == has_university_id(self@, id@),
    {
        let n = self.claims.len();
        let mut k: usize = 0;
        while k < n
            invariant
                k <= n,
                n == self@.len(),
                self@ == claims_view(self.claims@),
                forall|j: int| 0 <= j < k ==> (#[trigger] self@[j].university_id) != id@,
            decreases n - k,
        {
            if str_eq(self.claims[k].university_id.as_str(), id) {
                proof {
                    assert(self@[k as int].university_id == id@);
                }
                return true;
            }
            k += 1;
        }
        false
    }

    /// Attempt to persist a new claim. Succeeds exactly when neither
    /// uniqueness invariant would be broken; on refusal the store is
    /// unchanged.
    pub fn insert_claim(&mut self, pdb_id: String, university_id: String, name: String) -> (ok:
        bool)
        requires
            old(self).wf(),
        ensures
            final(self).wf(),
            ok == (!has_pdb(old(self)@, pdb_id@) && !has_university_id(old(self)@, university_id@)),
            ok ==> final(self)@ == old(self)@.push(
                ClaimView { pdb_id: pdb_id@, university_id: university_id@, claimant_name: name@ },
            ),
            !ok ==> final(self)@ == old(self)@,
    {
        let dup_pdb = self.contains_pdb(pdb_id.as_str());
        let dup_id = self.contains_university_id(university_id.as_str());
        if dup_pdb || dup_id {
            return false;
        }
        let ghost prior = self@;
        let claim = Claim { pdb_id, university_id, claimant_name: name };
        let ghost cv = claim@;
        self.claims.push(claim);
        proof {
            assert(self@ =~= prior.push(cv));
            assert forall|i: int, j: int|
                #![trigger self@[i], self@[j]]
                0 <= i < j < self@.len() implies self@[i].pdb_id != self@[j].pdb_id
                && self@[i].university_id != self@[j].university_id by {
                if j == self@.len() - 1 {
                    assert(self@[i] == prior[i]);
                    assert(prior[i].pdb_id != cv.pdb_id);
                    assert(prior[i].university_id != cv.university_id);
                } else {
                    assert(prior[i] == self@[i] && prior[j] == self@[j]);
                }
            }
        }
        true
    }

    /// The PDB id already claimed by this university id, if any.
    pub fn find_pdb_for(&self, university_id: &str) -> (r: Option<String>)
        requires
            self.wf(),
        ensures
            match r {
                Some(p) => has_university_id(self@, university_id@) && p@ == pdb_for(
                    self@,
                    university_id@,
                ),
                None => !has_university_id(self@, university_id@),
            },
    {
        let n = self.claims.len();
        let mut k: usize = 0;
        while k < n
            invariant
                k <= n,
                n == self@.len(),
                self.wf(),
                self@ == claims_view(self.claims@),
                forall|j: int| 0 <= j < k ==> (#[trigger] self@[j].university_id) != university_id@,
            decreases n - k,
        {
            if str_eq(self.claims[k].university_id.as_str(), university_id) {
                let p = self.claims[k].pdb_id.clone();
                proof {
                    assert(self@[k as int].university_id == university_id@);
                    let i = choose|i: int|
                        0 <= i < self@.len() && (#[trigger] self@[i].university_id)
                            == university_id@;
                    if i != k {
                        assert(self@[i].university_id != self@[k as int].university_id);
                    }
                }
                return Some(p);
            }
            k += 1;
        }
        None
    }

    /// Every stored claim, in storage order. Callers must not depend on the
    /// order beyond what this contract states.
    pub fn list_all_claims(&self) -> (r: Vec<Claim>)
        ensures
            claims_view(r@) == self@,
    {
        let n = self.claims.len();
        let mut out: Vec<Claim> = Vec::new();
        let mut k: usize = 0;
        while k < n
            invariant
                k <= n,
                n == self@.len(),
                self@ == claims_view(self.claims@),
                claims_view(out@) =~= self@.subrange(0, k as int),
            decreases n - k,
        {
            let d = self.claims[k].duplicate();
            let ghost prior_out = out@;
            out.push(d);
            proof {
                assert(d@ == self@[k as int]);
                assert(claims_view(prior_out).len() == prior_out.len());
                assert(prior_out.len() == k);
                assert forall|j: int| 0 <= j < out@.len() implies (#[trigger] claims_view(out@)[j])
                    == self@.subrange(0, k as int + 1)[j] by {
                    if j < k {
                        assert(out@[j] == prior_out[j]);
                        assert(claims_view(prior_out)[j] == self@.subrange(0, k as int)[j]);
                    } else {
                        assert(out@[j] == d);
                    }
                }
                assert(claims_view(out@) =~= self@.subrange(0, k as int + 1));
            }
            k += 1;
        }
        proof {
            assert(claims_view(out@) =~= self@);
        }
        out
    }
}

} // verus!
