//! The response dispatcher: classifies a completed HTTP response against
//! the status sets declared for the call, and produces either the parsed
//! success value, the documented error record, or an unexpected-status
//! error. Success deserialization is the caller's collaborator, handed in
//! as a parse function; the documented error shape `{"text": ...}` is read
//! through serde_json.

use vstd::prelude::*;

use crate::endpoint::{
    lemma_policy_membership, spec_invalid_of, spec_policy, spec_valid_of, Endpoint, StatusPolicy,
};
use crate::error::{APIError, DispatchError};
use crate::status::{classify_status, spec_classify, StatusClass};

verus! {

/// The message carried under the "text" key of a JSON object body, when
/// the body is such an object; `None` for every other body.
pub uninterp spec fn error_text_of(body: Seq<char>) -> Option<Seq<char>>;

/// Relies on serde_json's `from_str::<Value>`, `Value::get` and
/// `Value::as_str`: returns the string under the "text" key when the body
/// parses as a JSON object carrying a string there, and `None` otherwise.
/// The result depends on the body text alone.
#[verifier::external_body]
fn parse_error_text(body: &str) -> (r: Option<String>)
    ensures
        match r {
            Some(t) => error_text_of(body@) == Some(t@),
            None => error_text_of(body@) is None,
        },
{
    match serde_json::from_str::<serde_json::Value>(body) {
        Ok(v) => match v.get("text") {
            Some(t) => t.as_str().map(|s| s.to_string()),
            None => None,
        },
        Err(_) => None,
    }
}

/// What `parse_response` returns, as a function of the classification of
/// the status, of what the success parser may return, and of the error
/// text the body carries.
pub open spec fn parse_response_post<T, F: Fn(&str) -> Option<T>>(
    parse: F,
    status: u16,
    body: &str,
    valid: Seq<u16>,
    invalid: Seq<u16>,
    r: Result<T, DispatchError>,
) -> bool {
    match spec_classify(status, valid, invalid) {
        StatusClass::Valid => match r {
            Ok(t) => call_ensures(parse, (body,), Some(t)),
            Err(e) => e == (DispatchError::MalformedBody { status }) && call_ensures(
                parse,
                (body,),
                None::<T>,
            ),
        },
        StatusClass::Invalid => match error_text_of(body@) {
            Some(t) => r matches Err(e) && e matches DispatchError::Api(a) && a.spec_text() == t,
            None => r matches Err(e) && e == (DispatchError::MalformedBody { status }),
        },
        StatusClass::Unknown => r matches Err(e) && e == (DispatchError::UnknownStatus { status }),
    }
}

/// Parse an API response into the appropriate type.
///
/// The status is classified against the two sets declared for the call:
/// a valid status has the body handed to the success parser; an invalid
/// status has the body read as the documented error record; any other
/// status produces the unexpected-status error without touching the body.
pub fn parse_response<T, F: Fn(&str) -> Option<T>>(
    status: u16,
    body: &str,
    valid: Vec<u16>,
    invalid: Vec<u16>,
    parse: F,
) -> (r: Result<T, DispatchError>)
    requires
        spec_classify(status, valid@, invalid@) == StatusClass::Valid ==> call_requires(
            parse,
            (body,),
        ),
    ensures
        parse_response_post(parse, status, body, valid@, invalid@, r),
{
    match classify_status(status, &valid, &invalid) {
        StatusClass::Valid => match parse(body) {
            Some(t) => Ok(t),
            None => Err(DispatchError::MalformedBody { status }),
        },
        StatusClass::Invalid => match parse_error_text(body) {
            Some(t) => Err(DispatchError::Api(APIError::new(t.as_str()))),
            None => Err(DispatchError::MalformedBody { status }),
        },
        StatusClass::Unknown => Err(DispatchError::UnknownStatus { status }),
    }
}

/// A response whose status is declared valid, with a body the success
/// parser accepts as a single possible value, is dispatched to a success
/// outcome equal to that parsed value.
pub proof fn lemma_valid_status_yields_parsed_value<T, F: Fn(&str) -> Option<T>>(
    parse: F,
    status: u16,
    body: &str,
    valid: Seq<u16>,
    invalid: Seq<u16>,
    r: Result<T, DispatchError>,
    v: T,
)
    requires
        valid.contains(status),
        forall|o: Option<T>| call_ensures(parse, (body,), o) ==> o == Some(v),
        parse_response_post(parse, status, body, valid, invalid, r),
    ensures
        r matches Ok(t) && t == v,
{
}

/// A response whose status is declared invalid, with a body in the
/// documented error shape, is dispatched to a documented-error outcome
/// whose message is exactly the text the body carries.
pub proof fn lemma_invalid_status_yields_documented_error<T, F: Fn(&str) -> Option<T>>(
    parse: F,
    status: u16,
    body: &str,
    valid: Seq<u16>,
    invalid: Seq<u16>,
    r: Result<T, DispatchError>,
    t: Seq<char>,
)
    requires
        !valid.contains(status),
        invalid.contains(status),
        error_text_of(body@) == Some(t),
        parse_response_post(parse, status, body, valid, invalid, r),
    ensures
        r matches Err(e) && e matches DispatchError::Api(a) && a.spec_text() == t,
{
}

/// A response with a status in neither declared set is dispatched to the
/// unexpected-status outcome, whose message carries the status code in
/// decimal.
pub proof fn lemma_undeclared_status_yields_unknown<T, F: Fn(&str) -> Option<T>>(
    parse: F,
    status: u16,
    body: &str,
    valid: Seq<u16>,
    invalid: Seq<u16>,
    r: Result<T, DispatchError>,
)
    requires
        !valid.contains(status),
        !invalid.contains(status),
        parse_response_post(parse, status, body, valid, invalid, r),
    ensures
        r matches Err(e) && e == (DispatchError::UnknownStatus { status }),
        r matches Err(e) && e.spec_message() == "unknown status code: "@ + crate::digits::spec_dec_nat(
            status as nat,
        ),
{
}

/// For every single-item lookup endpoint, a 200 response whose body the
/// success parser accepts as one value dispatches to a success outcome
/// equal to that parsed value.
pub proof fn lemma_lookup_200_yields_parsed_value<T, F: Fn(&str) -> Option<T>>(
    e: Endpoint,
    parse: F,
    body: &str,
    r: Result<T, DispatchError>,
    v: T,
)
    requires
        spec_policy(e) == StatusPolicy::PublicLookup,
        forall|o: Option<T>| call_ensures(parse, (body,), o) ==> o == Some(v),
        parse_response_post(
            parse,
            200,
            body,
            spec_valid_of(spec_policy(e)),
            spec_invalid_of(spec_policy(e)),
            r,
        ),
    ensures
        r matches Ok(t) && t == v,
{
    lemma_policy_membership(spec_policy(e), 200);
    lemma_valid_status_yields_parsed_value(
        parse,
        200,
        body,
        spec_valid_of(spec_policy(e)),
        spec_invalid_of(spec_policy(e)),
        r,
        v,
    );
}

/// For every single-item lookup endpoint, a 404 response with a body in
/// the documented error shape dispatches to a documented-error outcome
/// whose message is exactly the text the body carries.
pub proof fn lemma_lookup_404_yields_documented_error<T, F: Fn(&str) -> Option<T>>(
    e: Endpoint,
    parse: F,
    body: &str,
    r: Result<T, DispatchError>,
    t: Seq<char>,
)
    requires
        spec_policy(e) == StatusPolicy::PublicLookup,
        error_text_of(body@) == Some(t),
        parse_response_post(
            parse,
            404,
            body,
            spec_valid_of(spec_policy(e)),
            spec_invalid_of(spec_policy(e)),
            r,
        ),
    ensures
        r matches Err(err) && err matches DispatchError::Api(a) && a.spec_text() == t,
{
    lemma_policy_membership(spec_policy(e), 404);
    lemma_invalid_status_yields_documented_error(
        parse,
        404,
        body,
        spec_valid_of(spec_policy(e)),
        spec_invalid_of(spec_policy(e)),
        r,
        t,
    );
}

/// For every batch endpoint declared to accept partial content, a complete
/// (200) and a partial (206) response whose body the success parser
/// accepts both dispatch to a success outcome, through the same
/// valid-status path, never as an error.
pub proof fn lemma_batch_full_and_partial_succeed<T, F: Fn(&str) -> Option<T>>(
    e: Endpoint,
    parse: F,
    status: u16,
    body: &str,
    r: Result<T, DispatchError>,
    v: T,
)
    requires
        spec_policy(e) == StatusPolicy::PublicBatch,
        status == 200 || status == 206,
        forall|o: Option<T>| call_ensures(parse, (body,), o) ==> o == Some(v),
        parse_response_post(
            parse,
            status,
            body,
            spec_valid_of(spec_policy(e)),
            spec_invalid_of(spec_policy(e)),
            r,
        ),
    ensures
        r matches Ok(t) && t == v,
{
    lemma_policy_membership(spec_policy(e), status);
    lemma_valid_status_yields_parsed_value(
        parse,
        status,
        body,
        spec_valid_of(spec_policy(e)),
        spec_invalid_of(spec_policy(e)),
        r,
        v,
    );
}

/// For every endpoint, a response with a status that no policy declares, a
/// 500 for one, dispatches to the unexpected-status outcome carrying that
/// code, whatever the body holds.
pub proof fn lemma_endpoint_undeclared_status<T, F: Fn(&str) -> Option<T>>(
    e: Endpoint,
    parse: F,
    status: u16,
    body: &str,
    r: Result<T, DispatchError>,
)
    requires
        status != 200,
        status != 206,
        status != 400,
        status != 403,
        status != 404,
        parse_response_post(
            parse,
            status,
            body,
            spec_valid_of(spec_policy(e)),
            spec_invalid_of(spec_policy(e)),
            r,
        ),
    ensures
        r matches Err(err) && err == (DispatchError::UnknownStatus { status }),
{
    lemma_policy_membership(spec_policy(e), status);
}

/// Dispatch is deterministic: two responses with the same status and body,
/// dispatched against the same sets with a deterministic success parser,
/// end in the same outcome.
pub proof fn lemma_parse_response_deterministic<T, F: Fn(&str) -> Option<T>>(
    parse: F,
    status: u16,
    body: &str,
    valid: Seq<u16>,
    invalid: Seq<u16>,
    r1: Result<T, DispatchError>,
    r2: Result<T, DispatchError>,
)
    requires
        forall|o1: Option<T>, o2: Option<T>|
            call_ensures(parse, (body,), o1) && call_ensures(parse, (body,), o2) ==> o1 == o2,
        parse_response_post(parse, status, body, valid, invalid, r1),
        parse_response_post(parse, status, body, valid, invalid, r2),
    ensures
        match (r1, r2) {
            (Ok(t1), Ok(t2)) => t1 == t2,
            (Err(e1), Err(e2)) => e1.spec_same_outcome(&e2),
            _ => false,
        },
{
}

} // verus!
