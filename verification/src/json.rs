//! The JSON body that every error is answered with.

use crate::text::{decimal, u16_to_decimal};
use vstd::prelude::*;

verus! {

/// The JSON string literal for `text`, quotes included, as
/// `serde_json::to_string` writes it.
pub uninterp spec fn json_string(text: Seq<char>) -> Seq<char>;

/// Calls `serde_json::to_string` on a string slice.
///
/// Claimed and not proved: the call succeeds, and what it returns depends on
/// the characters of `text` alone. It succeeds because a string slice
/// serializes by writing its escaped form into a byte vector, and neither
/// step can fail.
#[verifier::external_body]
fn to_json_string(text: &str) -> (r: Result<String, serde_json::Error>)
    ensures
        r is Ok,
        r matches Ok(literal) ==> literal@ == json_string(text@),
{
    serde_json::to_string(text)
}

/// The body for an error, given its message as a JSON string literal:
/// an object with the members `error` and `status`, in that order and
/// without white space.
pub open spec fn error_envelope(literal: Seq<char>, status: int) -> Seq<char> {
    "{\"error\":"@ + literal + ",\"status\":"@ + decimal(status as nat) + "}"@
}

/// The body for an error with the message `message` and the status `status`.
pub open spec fn error_body(message: Seq<char>, status: int) -> Seq<char> {
    error_envelope(json_string(message), status)
}

/// Puts `literal`, the message as a JSON string literal, and `status` into the
/// error object.
pub fn write_error_envelope(literal: &str, status: u16) -> (body: String)
    ensures
        body@ == error_envelope(literal@, status as int),
{
    let mut body = "{\"error\":".to_owned();
    body.append(literal);
    body.append(",\"status\":");
    body.append(u16_to_decimal(status).as_str());
    body.append("}");
    body
}

/// Renders the body for an error with the message `message` and the status
/// `status`.
pub fn write_error_body(message: &str, status: u16) -> (body: String)
    ensures
        body@ == error_body(message@, status as int),
{
    match to_json_string(message) {
        Ok(literal) => write_error_envelope(literal.as_str(), status),
        Err(_) => unreached(),
    }
}

} // verus!
