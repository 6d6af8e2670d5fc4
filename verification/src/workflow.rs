//! The request workflows: registration (validate, insert, disambiguate a
//! refused insert), lookup, and the admin listing.

use vstd::prelude::*;

use crate::access::SecretKey;
use crate::store::{
    claims_view, has_pdb, has_university_id, pdb_for, store_wf, Claim, ClaimStore, ClaimView,
};
use crate::text::{upper_seq, uppercased};
use crate::validation::{
    feedback_clean, spec_feedback, university_id_accepted, validate, Feedback, FeedbackView,
};

verus! {

/// The form fields of one registration submission.
pub struct TemplateParams {
    pub name: String,
    pub pdb: String,
    pub mcgill_id: String,
}

impl TemplateParams {
    /// Normalize the submission: the PDB id is uppercased, the other
    /// fields are left as they came.
    pub fn normalize(&mut self)
        ensures
            final(self).pdb@ == upper_seq(old(self).pdb@),
            final(self).name@ == old(self).name@,
            final(self).mcgill_id@ == old(self).mcgill_id@,
    {
        self.pdb = uppercased(self.pdb.as_str());
    }
}

/// How one registration attempt ended.
pub enum RegisterOutcome {
    /// The claim was recorded; the submission (as normalized) holds the
    /// stored values.
    Inserted,
    /// Validation failed; the per-field messages to render back into the
    /// form.
    Rejected(Feedback),
    /// The university id has already claimed a PDB id: the one carried
    /// here, which is the stored one, not the new submission.
    DuplicateUniversityId(String),
    /// The PDB id alone is already claimed, by someone else.
    DuplicatePdb,
}

/// The mathematical content of a [`RegisterOutcome`].
pub ghost enum RegisterOutcomeView {
    Inserted,
    Rejected(FeedbackView),
    DuplicateUniversityId(Seq<char>),
    DuplicatePdb,
}

impl View for RegisterOutcome {
    type V = RegisterOutcomeView;

    open spec fn view(&self) -> RegisterOutcomeView {
        match self {
            RegisterOutcome::Inserted => RegisterOutcomeView::Inserted,
            RegisterOutcome::Rejected(f) => RegisterOutcomeView::Rejected(f@),
            RegisterOutcome::DuplicateUniversityId(p) => RegisterOutcomeView::DuplicateUniversityId(
                p@,
            ),
            RegisterOutcome::DuplicatePdb => RegisterOutcomeView::DuplicatePdb,
        }
    }
}

/// One registration attempt as a transition: from the stored claims and the
/// raw submission to the outcome and the claims afterwards.
pub open spec fn register_spec(
    s: Seq<ClaimView>,
    name: Seq<char>,
    pdb: Seq<char>,
    id: Seq<char>,
) -> (RegisterOutcomeView, Seq<ClaimView>) {
    let p = upper_seq(pdb);
    let fb = spec_feedback(name, p, id);
    if !feedback_clean(fb) {
        (RegisterOutcomeView::Rejected(fb), s)
    } else if !has_pdb(s, p) && !has_university_id(s, id) {
        (
            RegisterOutcomeView::Inserted,
            s.push(ClaimView { pdb_id: p, university_id: id, claimant_name: name }),
        )
    } else if has_university_id(s, id) {
        (RegisterOutcomeView::DuplicateUniversityId(pdb_for(s, id)), s)
    } else {
        (RegisterOutcomeView::DuplicatePdb, s)
    }
}

/// The registration workflow: normalize the PDB id, validate every field,
/// attempt the insert, and on a refused insert tell a duplicate university
/// id (reporting the already-stored PDB id) from a duplicate PDB id.
pub fn register(store: &mut ClaimStore, params: &mut TemplateParams) -> (r: RegisterOutcome)
    requires
        old(store).wf(),
    ensures
        final(store).wf(),
        final(params).name@ == old(params).name@,
        final(params).mcgill_id@ == old(params).mcgill_id@,
        final(params).pdb@ == upper_seq(old(params).pdb@),
        (r@, final(store)@) == register_spec(
            old(store)@,
            old(params).name@,
            old(params).pdb@,
            old(params).mcgill_id@,
        ),
{
    params.normalize();
    let fb = validate(params.name.as_str(), params.pdb.as_str(), params.mcgill_id.as_str());
    if !fb.is_clean() {
        return RegisterOutcome::Rejected(fb);
    }
    let ok = store.insert_claim(
        params.pdb.clone(),
        params.mcgill_id.clone(),
        params.name.clone(),
    );
    if ok {
        RegisterOutcome::Inserted
    } else {
        match store.find_pdb_for(params.mcgill_id.as_str()) {
            Some(p) => RegisterOutcome::DuplicateUniversityId(p),
            None => RegisterOutcome::DuplicatePdb,
        }
    }
}

/// How one lookup attempt ended.
pub enum CheckOutcome {
    /// The PDB id stored for the asked university id.
    Found(String),
    /// The asked university id fails the nine-digit rule.
    InvalidId,
    /// A well-formed university id with no registration.
    NotFound,
}

/// The mathematical content of a [`CheckOutcome`].
pub ghost enum CheckOutcomeView {
    Found(Seq<char>),
    InvalidId,
    NotFound,
}

impl View for CheckOutcome {
    type V = CheckOutcomeView;

    open spec fn view(&self) -> CheckOutcomeView {
        match self {
            CheckOutcome::Found(p) => CheckOutcomeView::Found(p@),
            CheckOutcome::InvalidId => CheckOutcomeView::InvalidId,
            CheckOutcome::NotFound => CheckOutcomeView::NotFound,
        }
    }
}

/// One lookup as a function of the stored claims and the asked id.
pub open spec fn check_spec(s: Seq<ClaimView>, id: Seq<char>) -> CheckOutcomeView {
    if !university_id_accepted(id) {
        CheckOutcomeView::InvalidId
    } else if has_university_id(s, id) {
        CheckOutcomeView::Found(pdb_for(s, id))
    } else {
        CheckOutcomeView::NotFound
    }
}

/// The lookup workflow: validate the university id against the nine-digit
/// rule alone, then return the PDB id stored for it, if any.
pub fn do_check(store: &ClaimStore, mcgill_id: &str) -> (r: CheckOutcome)
    requires
        store.wf(),
    ensures
        r@ == check_spec(store@, mcgill_id@),
{
    if !crate::validation::validate_university_id(mcgill_id) {
        return CheckOutcome::InvalidId;
    }
    match store.find_pdb_for(mcgill_id) {
        Some(p) => CheckOutcome::Found(p),
        None => CheckOutcome::NotFound,
    }
}

/// How a request for the admin listing ended.
pub enum AdminOutcome {
    /// Admin scope: every stored claim.
    Listing(Vec<Claim>),
    /// User scope: indistinguishable from asking for a route that does not
    /// exist; deliberately not a "forbidden" answer.
    NotFound,
}

/// The admin listing: Admin scope sees every claim; User scope gets the
/// same "not found" answer a nonexistent route would get.
pub fn admin_view(key: &SecretKey, store: &ClaimStore) -> (r: AdminOutcome)
    ensures
        key is User ==> r is NotFound,
        key is Admin ==> (r matches AdminOutcome::Listing(l) && claims_view(l@) == store@),
{
    match key {
        SecretKey::User => AdminOutcome::NotFound,
        SecretKey::Admin => AdminOutcome::Listing(store.list_all_claims()),
    }
}

/// Uniqueness of PDB ids: where the store already holds a
/// claim with the submitted PDB id (compared after uppercasing), a
/// registration attempt never reaches the Inserted outcome and leaves the
/// store unchanged; where the submission is otherwise valid and its
/// university id is fresh, the outcome is DuplicatePdb.
pub proof fn lemma_pdb_uniqueness(s: Seq<ClaimView>, name: Seq<char>, pdb: Seq<char>, id: Seq<
    char,
>)
    requires
        store_wf(s),
        has_pdb(s, upper_seq(pdb)),
    ensures
        !(register_spec(s, name, pdb, id).0 is Inserted),
        register_spec(s, name, pdb, id).1 == s,
        feedback_clean(spec_feedback(name, upper_seq(pdb), id)) && !has_university_id(s, id)
            ==> register_spec(s, name, pdb, id).0 is DuplicatePdb,
{
}

/// Uniqueness of university ids: where claim `s[i]` already
/// holds the submitted university id, a registration attempt never reaches
/// Inserted and leaves the store unchanged; where the submission passes
/// validation, the outcome names the already-stored PDB id `s[i].pdb_id`,
/// never the new submission.
pub proof fn lemma_university_id_uniqueness(
    s: Seq<ClaimView>,
    name: Seq<char>,
    pdb: Seq<char>,
    id: Seq<char>,
    i: int,
)
    requires
        store_wf(s),
        0 <= i < s.len(),
        s[i].university_id == id,
    ensures
        !(register_spec(s, name, pdb, id).0 is Inserted),
        register_spec(s, name, pdb, id).1 == s,
        feedback_clean(spec_feedback(name, upper_seq(pdb), id)) ==> register_spec(s, name, pdb, id).0
            == RegisterOutcomeView::DuplicateUniversityId(s[i].pdb_id),
{
    assert(has_university_id(s, id));
    let j = choose|j: int| 0 <= j < s.len() && (#[trigger] s[j].university_id) == id;
    if j != i {
        assert(s[i].university_id != s[j].university_id);
    }
    assert(pdb_for(s, id) == s[i].pdb_id);
}

} // verus!
