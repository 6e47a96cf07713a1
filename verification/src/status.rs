//! Classification of an HTTP status code against the two status sets that
//! each endpoint call declares: `valid` (success deserialization) and
//! `invalid` (documented-error deserialization).

use vstd::prelude::*;

verus! {

/// The three-way classification of a response status.
#[derive(Clone, Copy, Debug, PartialEq, Eq, Structural)]
pub enum StatusClass {
    /// The status is in the declared valid set: the body carries the
    /// expected success value.
    Valid,
    /// The status is in the declared invalid set: the body carries a
    /// documented error record.
    Invalid,
    /// The status is in neither set: the response is unanticipated.
    Unknown,
}

/// The classification rule: `valid` is consulted first, then `invalid`.
pub open spec fn spec_classify(status: u16, valid: Seq<u16>, invalid: Seq<u16>) -> StatusClass {
    if valid.contains(status) {
        StatusClass::Valid
    } else if invalid.contains(status) {
        StatusClass::Invalid
    } else {
        StatusClass::Unknown
    }
}

/// Whether a status code occurs in a declared set.
pub fn contains_code(codes: &Vec<u16>, status: u16) -> (b: bool)
    ensures
        b == codes@.contains(status),
{
    let mut i: usize = 0;
    while i < codes.len()
        invariant
            i <= codes.len(),
            forall|j: int| 0 <= j < i ==> codes@[j] != status,
        decreases codes.len() - i,
    {
        if codes[i] == status {
            return true;
        }
        i += 1;
    }
    false
}

/// Classifies a response status against the declared sets.
pub fn classify_status(status: u16, valid: &Vec<u16>, invalid: &Vec<u16>) -> (c: StatusClass)
    ensures
        c == spec_classify(status, valid@, invalid@),
{
    if contains_code(valid, status) {
        StatusClass::Valid
    } else if contains_code(invalid, status) {
        StatusClass::Invalid
    } else {
        StatusClass::Unknown
    }
}

} // verus!
