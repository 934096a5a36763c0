//! Turning a finished response into a result or a typed error.
use crate::error::{is_status_error, ClientError};
use vstd::prelude::*;
use vstd::string::StringExecFns;

verus! {

/// Message used when the body of an error response could not be read.
pub const UNKNOWN_ERROR_TEXT: &'static str = "Unknown error";

/// The string held by the top-level `message` member of `text` read as JSON
/// (`None` when `text` is no JSON, or has no such member, or it is no string).
pub uninterp spec fn json_message_of(text: Seq<char>) -> Option<Seq<char>>;

/// Relies on serde_json::from_str (into a `serde_json::Value`), then
/// `Value::get("message")` and `Value::as_str`: the `message` string of a JSON
/// object, which depends on the text alone.
#[verifier::external_body]
fn json_message(text: &str) -> (r: Option<String>)
    ensures
        match r {
            Some(m) => json_message_of(text@) == Some(m@),
            None => json_message_of(text@) is None,
        },
{
    serde_json::from_str::<serde_json::Value>(text).ok().and_then(
        |v| v.get("message").and_then(|m| m.as_str()).map(String::from),
    )
}

/// The view of an optional string.
pub open spec fn opt_text(s: Option<String>) -> Option<Seq<char>> {
    match s {
        Some(t) => Some(t@),
        None => None,
    }
}

/// The message of an error response: the API's own message where the body had
/// one, else the raw body text, else a fixed placeholder.
pub open spec fn error_message_spec(body: Option<Seq<char>>, api_message: Option<Seq<char>>) -> Seq<
    char,
> {
    match body {
        None => UNKNOWN_ERROR_TEXT@,
        Some(text) => match api_message {
            Some(m) => m,
            None => text,
        },
    }
}

/// The message of an error response from its body text (`None` when the body
/// could not be read) and the `message` found in that text as JSON.
pub fn choose_error_message(body: Option<String>, api_message: Option<String>) -> (r: String)
    ensures
        r@ == error_message_spec(opt_text(body), opt_text(api_message)),
{
    match body {
        None => String::from_str(UNKNOWN_ERROR_TEXT),
        Some(text) => match api_message {
            Some(m) => m,
            None => text,
        },
    }
}

/// The `message` that the error body carries as JSON, if it can be read at all.
pub open spec fn body_message(body: Option<Seq<char>>) -> Option<Seq<char>> {
    match body {
        Some(text) => json_message_of(text),
        None => None,
    }
}

/// The message of an error response with this body (`None` when the body could
/// not be read).
pub fn error_message(body: Option<String>) -> (r: String)
    ensures
        r@ == error_message_spec(opt_text(body), body_message(opt_text(body))),
{
    let api_message = match &body {
        Some(text) => json_message(text.as_str()),
        None => None,
    };
    choose_error_message(body, api_message)
}

/// Whether a status counts as success (2xx).
pub open spec fn is_success_status(status: u16) -> bool {
    200 <= status && status <= 299
}

/// Decides whether a response status is a success whose body is to be decoded.
pub fn is_success(status: u16) -> (r: bool)
    ensures
        r == is_success_status(status),
{
    200 <= status && status <= 299
}

/// The typed error for a failed response, from its status and its body text
/// (`None` when the body could not be read).
pub fn error_from_response(status: u16, body: Option<String>) -> (r: ClientError)
    ensures
        is_status_error(r, status, error_message_spec(opt_text(body), body_message(opt_text(body)))),
{
    let message = error_message(body);
    ClientError::from_status(status, message)
}

} // verus!
