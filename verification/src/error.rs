//! Typed errors returned to the caller: the remote API's documented error
//! record, and the two severer conditions a dispatch can end in.

use vstd::prelude::*;

use crate::digits::{push_dec_u64, spec_dec_nat};

verus! {

/// The remote API's uniform error record: a single human-readable message,
/// carried in the response body under the "text" key.
#[derive(Clone, Debug, PartialEq, Eq)]
pub struct APIError {
    text: String,
}

impl APIError {
    /// The message carried by the error.
    pub closed spec fn spec_text(&self) -> Seq<char> {
        self.text@
    }

    /// Builds an error around a message.
    pub fn new(text: &str) -> (e: APIError)
        ensures
            e.spec_text() == text@,
    {
        APIError { text: String::from_str(text) }
    }

    /// The message carried by the error.
    pub fn text(&self) -> (t: &str)
        ensures
            t@ == self.spec_text(),
    {
        self.text.as_str()
    }
}

/// The outcome classes a dispatch can fail with. A transport-level failure
/// never reaches the dispatcher and is not represented here.
#[derive(Clone, Debug, PartialEq, Eq)]
pub enum DispatchError {
    /// The status was in the declared invalid set and the body carried the
    /// documented error record.
    Api(APIError),
    /// The body did not have the shape the status promised: a success
    /// status whose body the success parser rejects, or a declared failure
    /// status whose body is not the documented error record. Indicates
    /// schema drift, a severer condition than a documented failure.
    MalformedBody { status: u16 },
    /// The status was in neither declared set.
    UnknownStatus { status: u16 },
}

impl DispatchError {
    /// The human-readable message of each error class.
    pub open spec fn spec_message(&self) -> Seq<char> {
        match self {
            DispatchError::Api(e) => e.spec_text(),
            DispatchError::MalformedBody { status } => "malformed body for status code: "@
                + spec_dec_nat(*status as nat),
            DispatchError::UnknownStatus { status } => "unknown status code: "@ + spec_dec_nat(
                *status as nat,
            ),
        }
    }

    /// Renders the human-readable message.
    pub fn message(&self) -> (m: String)
        ensures
            m@ == self.spec_message(),
    {
        match self {
            DispatchError::Api(e) => e.text.clone(),
            DispatchError::MalformedBody { status } => {
                let mut m = String::from_str("malformed body for status code: ");
                push_dec_u64(&mut m, *status as u64);
                m
            },
            DispatchError::UnknownStatus { status } => {
                let mut m = String::from_str("unknown status code: ");
                push_dec_u64(&mut m, *status as u64);
                m
            },
        }
    }

    /// Whether two dispatch errors are the same outcome: the same class
    /// carrying the same message or status.
    pub open spec fn spec_same_outcome(&self, other: &DispatchError) -> bool {
        match (self, other) {
            (DispatchError::Api(a), DispatchError::Api(b)) => a.spec_text() == b.spec_text(),
            (
                DispatchError::MalformedBody { status: s1 },
                DispatchError::MalformedBody { status: s2 },
            ) => s1 == s2,
            (
                DispatchError::UnknownStatus { status: s1 },
                DispatchError::UnknownStatus { status: s2 },
            ) => s1 == s2,
            _ => false,
        }
    }
}

} // verus!
