//! Field validation: the rules for the claimant name, the PDB id and the
//! university id, and the per-field error messages.

use vstd::prelude::*;

use crate::text::{upper_char_exec, upper_seq};

verus! {

/// A decimal digit `0`..`9`.
pub open spec fn is_digit_char(c: char) -> bool {
    '0' <= c && c <= '9'
}

/// A digit or an uppercase letter `A`..`Z`.
pub open spec fn is_upper_alnum(c: char) -> bool {
    is_digit_char(c) || ('A' <= c && c <= 'Z')
}

/// ASCII whitespace: space, tab, line feed, vertical tab, form feed,
/// carriage return.
pub open spec fn is_space_char(c: char) -> bool {
    c == ' ' || c == '\t' || c == '\n' || c == '\u{b}' || c == '\u{c}' || c == '\r'
}

/// An already-uppercased PDB id: one digit followed by three characters,
/// each a digit or an uppercase letter.
pub open spec fn valid_pdb_chars(s: Seq<char>) -> bool {
    &&& s.len() == 4
    &&& is_digit_char(s[0])
    &&& forall|i: int| 1 <= i < 4 ==> is_upper_alnum(#[trigger] s[i])
}

/// The PDB rule: the string, uppercased, is a valid PDB id.
pub open spec fn pdb_accepted(s: Seq<char>) -> bool {
    valid_pdb_chars(upper_seq(s))
}

/// The university-id rule: exactly nine decimal digits.
pub open spec fn university_id_accepted(s: Seq<char>) -> bool {
    s.len() == 9 && forall|i: int| 0 <= i < 9 ==> is_digit_char(#[trigger] s[i])
}

/// The name rule: at least one character that is not whitespace (the
/// trimmed string is non-empty).
pub open spec fn name_accepted(s: Seq<char>) -> bool {
    exists|i: int| 0 <= i < s.len() && !is_space_char(#[trigger] s[i])
}

fn is_digit_exec(c: char) -> (r: bool)
    ensures
        r == is_digit_char(c),
{
    let v: u32 = c as u32;
    48 <= v && v <= 57
}

fn is_upper_alnum_exec(c: char) -> (r: bool)
    ensures
        r == is_upper_alnum(c),
{
    let v: u32 = c as u32;
    (48 <= v && v <= 57) || (65 <= v && v <= 90)
}

fn is_space_exec(c: char) -> (r: bool)
    ensures
        r == is_space_char(c),
{
    let v: u32 = c as u32;
    v == 32 || v == 9 || v == 10 || v == 11 || v == 12 || v == 13
}

/// True exactly when the name rule accepts the string.
pub fn validate_name(s: &str) -> (r: bool)
    ensures
        r == name_accepted(s@),
{
    let n = s.unicode_len();
    let mut i: usize = 0;
    while i < n
        invariant
            i <= n,
            n == s@.len(),
            forall|j: int| 0 <= j < i ==> is_space_char(#[trigger] s@[j]),
        decreases n - i,
    {
        if !is_space_exec(s.get_char(i)) {
            return true;
        }
        i += 1;
    }
    false
}

/// True exactly when the PDB rule accepts the string (after uppercasing).
pub fn validate_pdb(s: &str) -> (r: bool)
    ensures
        r == pdb_accepted(s@),
{
    let n = s.unicode_len();
    if n != 4 {
        return false;
    }
    let c0 = upper_char_exec(s.get_char(0));
    if !is_digit_exec(c0) {
        return false;
    }
    let mut i: usize = 1;
    while i < 4
        invariant
            1 <= i <= 4,
            s@.len() == 4,
            is_digit_char(upper_seq(s@)[0]),
            forall|j: int| 1 <= j < i ==> is_upper_alnum(#[trigger] upper_seq(s@)[j]),
        decreases 4 - i,
    {
        let c = upper_char_exec(s.get_char(i));
        if !is_upper_alnum_exec(c) {
            proof {
                assert(upper_seq(s@)[i as int] == crate::text::upper_char(s@[i as int]));
            }
            return false;
        }
        i += 1;
    }
    true
}

/// True exactly when the university-id rule accepts the string.
pub fn validate_university_id(s: &str) -> (r: bool)
    ensures
        r == university_id_accepted(s@),
{
    let n = s.unicode_len();
    if n != 9 {
        return false;
    }
    let mut i: usize = 0;
    while i < 9
        invariant
            i <= 9,
            s@.len() == 9,
            forall|j: int| 0 <= j < i ==> is_digit_char(#[trigger] s@[j]),
        decreases 9 - i,
    {
        if !is_digit_exec(s.get_char(i)) {
            return false;
        }
        i += 1;
    }
    true
}

/// The error message for a rejected name.
pub open spec fn name_error_text() -> Seq<char> {
    "Please enter a valid name."@
}

/// The error message for a rejected PDB id.
pub open spec fn pdb_error_text() -> Seq<char> {
    "Please enter a valid PDB id (e.g. 2ARO)."@
}

/// The error message for a rejected university id.
pub open spec fn mcgill_id_error_text() -> Seq<char> {
    "Please enter a valid 9-digit McGill ID."@
}

/// The per-field validation outcome: an error message for every field that
/// fails its rule, nothing for a field that passes.
pub struct Feedback {
    pub name_msg: Option<String>,
    pub pdb_msg: Option<String>,
    pub mcgill_id_msg: Option<String>,
}

/// The mathematical content of a [`Feedback`]: each message as a character
/// sequence.
pub ghost struct FeedbackView {
    pub name_msg: Option<Seq<char>>,
    pub pdb_msg: Option<Seq<char>>,
    pub mcgill_id_msg: Option<Seq<char>>,
}

impl View for Feedback {
    type V = FeedbackView;

    open spec fn view(&self) -> FeedbackView {
        FeedbackView {
            name_msg: self.name_msg.deep_view(),
            pdb_msg: self.pdb_msg.deep_view(),
            mcgill_id_msg: self.mcgill_id_msg.deep_view(),
        }
    }
}

/// The feedback that validation owes a given submission: for each failing
/// field its message, for each passing field nothing.
pub open spec fn spec_feedback(name: Seq<char>, pdb: Seq<char>, id: Seq<char>) -> FeedbackView {
    FeedbackView {
        name_msg: if name_accepted(name) {
            None
        } else {
            Some(name_error_text())
        },
        pdb_msg: if pdb_accepted(pdb) {
            None
        } else {
            Some(pdb_error_text())
        },
        mcgill_id_msg: if university_id_accepted(id) {
            None
        } else {
            Some(mcgill_id_error_text())
        },
    }
}

/// No field drew an error.
pub open spec fn feedback_clean(f: FeedbackView) -> bool {
    f.name_msg is None && f.pdb_msg is None && f.mcgill_id_msg is None
}

impl Feedback {
    /// True exactly when no field drew an error.
    pub fn is_clean(&self) -> (r: bool)
        ensures
            r == feedback_clean(self@),
    {
        self.name_msg.is_none() && self.pdb_msg.is_none() && self.mcgill_id_msg.is_none()
    }
}

/// Validate a whole submission: the name rule, the PDB rule and the
/// university-id rule, each with its message.
pub fn validate(name: &str, pdb: &str, mcgill_id: &str) -> (r: Feedback)
    ensures
        r@ == spec_feedback(name@, pdb@, mcgill_id@),
{
    let name_msg = if validate_name(name) {
        None
    } else {
        Some(String::from_str("Please enter a valid name."))
    };
    let pdb_msg = if validate_pdb(pdb) {
        None
    } else {
        Some(String::from_str("Please enter a valid PDB id (e.g. 2ARO)."))
    };
    let mcgill_id_msg = if validate_university_id(mcgill_id) {
        None
    } else {
        Some(String::from_str("Please enter a valid 9-digit McGill ID."))
    };
    Feedback { name_msg, pdb_msg, mcgill_id_msg }
}

/// Rejection is idempotent: one and the same submission always draws one
/// and the same set of field errors.
pub proof fn lemma_rejection_idempotent(
    name: Seq<char>,
    pdb: Seq<char>,
    id: Seq<char>,
    f1: FeedbackView,
    f2: FeedbackView,
)
    requires
        f1 == spec_feedback(name, pdb, id),
        f2 == spec_feedback(name, pdb, id),
    ensures
        f1 == f2,
{
}

} // verus!
