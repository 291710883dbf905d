//! Response handling: classification of a status/body pair into the error
//! taxonomy, and extraction of the one string field a call is after. JSON
//! decoding is done by an outside crate; what it finds in a given body is
//! named, and everything around it is verified.

use vstd::prelude::*;

use crate::errors::{carried_status, GitHubError};

verus! {

/// Whether a body parses as a JSON document.
pub uninterp spec fn json_wellformed(body: Seq<char>) -> bool;

/// The string under a top-level key of a JSON document: `Some` exactly when
/// the body parses, holds that key, and its value is a string.
pub uninterp spec fn json_text_field(body: Seq<char>, key: Seq<char>) -> Option<Seq<char>>;

/// The string two keys deep in a JSON document: `Some` exactly when the body
/// parses, `key1` is present, and under it `key2` holds a string.
pub uninterp spec fn json_text_field2(
    body: Seq<char>,
    key1: Seq<char>,
    key2: Seq<char>,
) -> Option<Seq<char>>;

/// Whether an HTTP status signals success.
pub open spec fn is_success(status: u16) -> bool {
    200 <= status < 300
}

/// The message a non-success response carries: its body's `message` field,
/// or a fixed default when that field is absent.
pub open spec fn api_error_message(body: Seq<char>) -> Seq<char> {
    match json_text_field(body, "message"@) {
        Some(m) => m,
        None => "Unknown error"@,
    }
}

/// What holds of a handled response from which no value is wanted: any
/// success status is accepted as is; a non-success status yields the API
/// error built from the body, or a transport-kind error when the body is
/// not JSON.
pub open spec fn unit_response_spec(r: Result<(), GitHubError>, status: u16, body: Seq<char>) -> bool {
    &&& is_success(status) ==> r is Ok
    &&& !is_success(status) && !json_wellformed(body) ==> (r matches Err(
        GitHubError::RequestError { status: st },
    ) && st == Some(status))
    &&& !is_success(status) && json_wellformed(body) ==> (r matches Err(
        GitHubError::ApiError { status: st, message },
    ) && st == status && message@ == api_error_message(body))
}

/// What holds of a handled response whose success body carries one string
/// field (given here already looked up): a success status yields that
/// string, a missing field the parse error with the given message, a
/// non-JSON body the transport-kind error, and a non-success status the API
/// error built from the body.
pub open spec fn field_response_spec(
    r: Result<String, GitHubError>,
    status: u16,
    body: Seq<char>,
    field: Option<Seq<char>>,
    missing: Seq<char>,
) -> bool {
    &&& !json_wellformed(body) ==> (r matches Err(GitHubError::RequestError { status: st }) && st
        == Some(status))
    &&& json_wellformed(body) && !is_success(status) ==> (r matches Err(
        GitHubError::ApiError { status: st, message },
    ) && st == status && message@ == api_error_message(body))
    &&& json_wellformed(body) && is_success(status) ==> match field {
        Some(s) => r matches Ok(v) && v@ == s,
        None => r matches Err(GitHubError::ParseError(m)) && m@ == missing,
    }
}

/// Relies on serde_json::from_str::<Value>: whether a body parses as JSON is
/// a function of its text alone.
#[verifier::external_body]
fn json_parses(body: &str) -> (r: bool)
    ensures
        r == json_wellformed(body@),
{
    serde_json::from_str::<serde_json::Value>(body).is_ok()
}

/// Relies on serde_json::from_str::<Value>, Value::get and Value::as_str:
/// the string under a top-level key, a function of body and key alone.
#[verifier::external_body]
fn json_lookup_field(body: &str, key: &str) -> (r: Option<String>)
    ensures
        r is Some == json_text_field(body@, key@) is Some,
        r matches Some(s) ==> json_text_field(body@, key@) == Some(s@),
{
    match serde_json::from_str::<serde_json::Value>(body) {
        Ok(v) => match v.get(key) {
            Some(f) => f.as_str().map(String::from),
            None => None,
        },
        Err(_) => None,
    }
}

/// Relies on serde_json::from_str::<Value>, Value::get and Value::as_str:
/// the string two keys deep, a function of body and keys alone.
#[verifier::external_body]
fn json_lookup_field2(body: &str, key1: &str, key2: &str) -> (r: Option<String>)
    ensures
        r is Some == json_text_field2(body@, key1@, key2@) is Some,
        r matches Some(s) ==> json_text_field2(body@, key1@, key2@) == Some(s@),
{
    match serde_json::from_str::<serde_json::Value>(body) {
        Ok(v) => match v.get(key1) {
            Some(inner) => match inner.get(key2) {
                Some(f) => f.as_str().map(String::from),
                None => None,
            },
            None => None,
        },
        Err(_) => None,
    }
}

/// Builds the error for a non-success response whose body was read: the
/// status together with the body's `message` field (or the default).
fn api_error(status: u16, body: &str) -> (r: GitHubError)
    ensures
        r matches GitHubError::ApiError { status: st, message } && st == status && message@
            == api_error_message(body@),
{
    let message = match json_lookup_field(body, "message") {
        Some(m) => m,
        None => String::from_str("Unknown error"),
    };
    GitHubError::ApiError { status, message }
}

/// Handles a response from which no value is wanted: any success status is
/// accepted as is; a non-success status yields the API error built from the
/// body, or a transport-kind error when the body is not JSON.
pub fn handle_unit_response(status: u16, body: &str) -> (r: Result<(), GitHubError>)
    ensures
        unit_response_spec(r, status, body@),
{
    if 200 <= status && status < 300 {
        Ok(())
    } else if !json_parses(body) {
        Err(GitHubError::RequestError { status: Some(status) })
    } else {
        Err(api_error(status, body))
    }
}

/// Handles a response whose success body carries a string under one key:
/// a success status yields that string, a missing field the parse error
/// with the given message, a non-JSON body the transport-kind error, and a
/// non-success status the API error built from the body.
pub fn handle_field_response(status: u16, body: &str, key: &str, missing: &str) -> (r: Result<
    String,
    GitHubError,
>)
    ensures
        field_response_spec(r, status, body@, json_text_field(body@, key@), missing@),
{
    if !json_parses(body) {
        Err(GitHubError::RequestError { status: Some(status) })
    } else if !(200 <= status && status < 300) {
        Err(api_error(status, body))
    } else {
        match json_lookup_field(body, key) {
            Some(s) => Ok(s),
            None => Err(GitHubError::ParseError(String::from_str(missing))),
        }
    }
}

/// A non-success status makes the round trip through the error value: a
/// handled field response with such a status always fails, and the error
/// carries exactly that status — whatever the body held.
pub proof fn lemma_field_error_carries_status(
    r: Result<String, GitHubError>,
    status: u16,
    body: Seq<char>,
    field: Option<Seq<char>>,
    missing: Seq<char>,
)
    requires
        !is_success(status),
        field_response_spec(r, status, body, field, missing),
    ensures
        r matches Err(e) && carried_status(e) == Some(status),
{
}

/// The same round trip for a handled response from which no value is
/// wanted: a non-success status always fails with exactly that status.
pub proof fn lemma_unit_error_carries_status(
    r: Result<(), GitHubError>,
    status: u16,
    body: Seq<char>,
)
    requires
        !is_success(status),
        unit_response_spec(r, status, body),
    ensures
        r matches Err(e) && carried_status(e) == Some(status),
{
}

/// Handles a response whose success body carries a string two keys deep;
/// otherwise exactly as `handle_field_response`.
pub fn handle_field2_response(
    status: u16,
    body: &str,
    key1: &str,
    key2: &str,
    missing: &str,
) -> (r: Result<String, GitHubError>)
    ensures
        field_response_spec(r, status, body@, json_text_field2(body@, key1@, key2@), missing@),
{
    if !json_parses(body) {
        Err(GitHubError::RequestError { status: Some(status) })
    } else if !(200 <= status && status < 300) {
        Err(api_error(status, body))
    } else {
        match json_lookup_field2(body, key1, key2) {
            Some(s) => Ok(s),
            None => Err(GitHubError::ParseError(String::from_str(missing))),
        }
    }
}

} // verus!
