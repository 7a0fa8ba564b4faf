//! The closed set of failures that a handler can report.

use crate::status::StatusCode;
use crate::text::{is_substring, join, lemma_suffix_is_substring};
use vstd::prelude::*;
use vstd::std_specs::convert::FromSpecImpl;
use vstd::string::to_string_from_display_ensures;

verus! {

/// `hyper::Error`, a failure of the transport.
/// Nothing is read from such a value but the text that it displays.
#[verifier::external_type_specification]
#[verifier::external_body]
pub struct ExHyperError(hyper::Error);

/// `serde_json::Error`, a failure to read or write JSON.
/// Nothing is read from such a value but the text that it displays.
#[verifier::external_type_specification]
#[verifier::external_body]
pub struct ExJsonError(serde_json::Error);

/// `serde_urlencoded::de::Error`, a failure to decode a query or a form.
/// Nothing is read from such a value but the text that it displays.
#[verifier::external_type_specification]
#[verifier::external_body]
pub struct ExUrlDecodeError(serde_urlencoded::de::Error);

/// `std::io::Error`, a failure of an I/O operation.
/// Nothing is read from such a value but the text that it displays.
#[verifier::external_type_specification]
#[verifier::external_body]
pub struct ExIoError(std::io::Error);

/// `std::str::Utf8Error`, a failure to read bytes as UTF-8.
/// Nothing is read from such a value but the text that it displays.
#[verifier::external_type_specification]
#[verifier::external_body]
pub struct ExUtf8Error(std::str::Utf8Error);

/// `http::Error`, a failure to build an HTTP message.
/// Nothing is read from such a value but the text that it displays.
#[verifier::external_type_specification]
#[verifier::external_body]
pub struct ExHttpError(http::Error);

/// A failure that a handler reports.
///
/// The first five variants stand for a failure of a lower layer and carry the
/// text that the failure displays; the others carry the message as given.
#[derive(Debug)]
pub enum LunoxError {
    /// The transport failed.
    Http(String),
    /// A JSON document could not be read or written.
    Json(String),
    /// A URL-encoded query or form could not be decoded.
    UrlDecode(String),
    /// An I/O operation failed.
    Io(String),
    /// Bytes were not UTF-8.
    Utf8(String),
    BadRequest(String),
    NotFound(String),
    Internal(String),
    Unauthorized(String),
    Forbidden(String),
    /// Any status with any message.
    Custom(StatusCode, String),
}

impl LunoxError {
    /// The status that goes with each variant.
    pub open spec fn spec_status(&self) -> int {
        match self {
            LunoxError::Http(_) => 500,
            LunoxError::Json(_) => 400,
            LunoxError::UrlDecode(_) => 400,
            LunoxError::Io(_) => 500,
            LunoxError::Utf8(_) => 400,
            LunoxError::BadRequest(_) => 400,
            LunoxError::NotFound(_) => 404,
            LunoxError::Internal(_) => 500,
            LunoxError::Unauthorized(_) => 401,
            LunoxError::Forbidden(_) => 403,
            LunoxError::Custom(code, _) => code@,
        }
    }

    /// The label that a lower layer's failure is reported under, for the
    /// variants that stand for one.
    pub open spec fn spec_label(&self) -> Option<Seq<char>> {
        match self {
            LunoxError::Http(_) => Some("HTTP Error: "@),
            LunoxError::Json(_) => Some("JSON Error: "@),
            LunoxError::UrlDecode(_) => Some("Cannot decode URL because: "@),
            LunoxError::Io(_) => Some("IO Error: "@),
            LunoxError::Utf8(_) => Some("UTF-8 Error: "@),
            _ => None,
        }
    }

    /// The text that the variant carries: a lower layer's own words, or the
    /// message as given.
    pub open spec fn spec_detail(&self) -> Seq<char> {
        match self {
            LunoxError::Http(d) => d@,
            LunoxError::Json(d) => d@,
            LunoxError::UrlDecode(d) => d@,
            LunoxError::Io(d) => d@,
            LunoxError::Utf8(d) => d@,
            LunoxError::BadRequest(m) => m@,
            LunoxError::NotFound(m) => m@,
            LunoxError::Internal(m) => m@,
            LunoxError::Unauthorized(m) => m@,
            LunoxError::Forbidden(m) => m@,
            LunoxError::Custom(_, m) => m@,
        }
    }

    /// The message: the carried text, behind its label where there is one.
    pub open spec fn spec_message(&self) -> Seq<char> {
        match self.spec_label() {
            Some(label) => label + self.spec_detail(),
            None => self.spec_detail(),
        }
    }

    /// The status that the error is answered with.
    pub fn status_code(&self) -> (code: StatusCode)
        ensures
            code@ == self.spec_status(),
    {
        match self {
            LunoxError::Http(_) => StatusCode::internal_server_error(),
            LunoxError::Json(_) => StatusCode::bad_request(),
            LunoxError::UrlDecode(_) => StatusCode::bad_request(),
            LunoxError::Io(_) => StatusCode::internal_server_error(),
            LunoxError::Utf8(_) => StatusCode::bad_request(),
            LunoxError::BadRequest(_) => StatusCode::bad_request(),
            LunoxError::NotFound(_) => StatusCode::not_found(),
            LunoxError::Internal(_) => StatusCode::internal_server_error(),
            LunoxError::Unauthorized(_) => StatusCode::unauthorized(),
            LunoxError::Forbidden(_) => StatusCode::forbidden(),
            LunoxError::Custom(code, _) => *code,
        }
    }

    /// The message that the error is answered with.
    pub fn message(&self) -> (text: String)
        ensures
            text@ == self.spec_message(),
    {
        match self {
            LunoxError::Http(e) => join("HTTP Error: ", e.as_str()),
            LunoxError::Json(e) => join("JSON Error: ", e.as_str()),
            LunoxError::UrlDecode(e) => join("Cannot decode URL because: ", e.as_str()),
            LunoxError::Io(e) => join("IO Error: ", e.as_str()),
            LunoxError::Utf8(e) => join("UTF-8 Error: ", e.as_str()),
            LunoxError::BadRequest(msg) => msg.clone(),
            LunoxError::NotFound(msg) => msg.clone(),
            LunoxError::Internal(msg) => msg.clone(),
            LunoxError::Unauthorized(msg) => msg.clone(),
            LunoxError::Forbidden(msg) => msg.clone(),
            LunoxError::Custom(_, msg) => msg.clone(),
        }
    }
}

/// Lifts a transport failure: the error carries the text that the failure
/// displays.
impl From<hyper::Error> for LunoxError {
    fn from(err: hyper::Error) -> (r: LunoxError)
        ensures
            r matches LunoxError::Http(detail) && to_string_from_display_ensures::<hyper::Error>(
                &err,
                detail,
            ),
            is_substring(r.spec_detail(), r.spec_message()),
    {
        let r = LunoxError::Http(err.to_string());
        proof {
            lemma_message_contains_detail(r);
        }
        r
    }
}

impl FromSpecImpl<hyper::Error> for LunoxError {
    /// What a failure displays is not a function of the failure in
    /// contracts, so `from` is specified by a relation of its own.
    open spec fn obeys_from_spec() -> bool {
        false
    }

    open spec fn from_spec(err: hyper::Error) -> LunoxError {
        arbitrary()
    }
}

/// Lifts a JSON failure: the error carries the text that the failure displays.
impl From<serde_json::Error> for LunoxError {
    fn from(err: serde_json::Error) -> (r: LunoxError)
        ensures
            r matches LunoxError::Json(detail) && to_string_from_display_ensures::<serde_json::Error>(
                &err,
                detail,
            ),
            is_substring(r.spec_detail(), r.spec_message()),
    {
        let r = LunoxError::Json(err.to_string());
        proof {
            lemma_message_contains_detail(r);
        }
        r
    }
}

impl FromSpecImpl<serde_json::Error> for LunoxError {
    /// What a failure displays is not a function of the failure in
    /// contracts, so `from` is specified by a relation of its own.
    open spec fn obeys_from_spec() -> bool {
        false
    }

    open spec fn from_spec(err: serde_json::Error) -> LunoxError {
        arbitrary()
    }
}

/// Lifts a URL decoding failure: the error carries the text that the failure
/// displays.
impl From<serde_urlencoded::de::Error> for LunoxError {
    fn from(err: serde_urlencoded::de::Error) -> (r: LunoxError)
        ensures
            r matches LunoxError::UrlDecode(detail) && to_string_from_display_ensures::<serde_urlencoded::de::Error>(
                &err,
                detail,
            ),
            is_substring(r.spec_detail(), r.spec_message()),
    {
        let r = LunoxError::UrlDecode(err.to_string());
        proof {
            lemma_message_contains_detail(r);
        }
        r
    }
}

impl FromSpecImpl<serde_urlencoded::de::Error> for LunoxError {
    /// What a failure displays is not a function of the failure in
    /// contracts, so `from` is specified by a relation of its own.
    open spec fn obeys_from_spec() -> bool {
        false
    }

    open spec fn from_spec(err: serde_urlencoded::de::Error) -> LunoxError {
        arbitrary()
    }
}

/// Lifts an I/O failure: the error carries the text that the failure displays.
impl From<std::io::Error> for LunoxError {
    fn from(err: std::io::Error) -> (r: LunoxError)
        ensures
            r matches LunoxError::Io(detail) && to_string_from_display_ensures::<std::io::Error>(
                &err,
                detail,
            ),
            is_substring(r.spec_detail(), r.spec_message()),
    {
        let r = LunoxError::Io(err.to_string());
        proof {
            lemma_message_contains_detail(r);
        }
        r
    }
}

impl FromSpecImpl<std::io::Error> for LunoxError {
    /// What a failure displays is not a function of the failure in
    /// contracts, so `from` is specified by a relation of its own.
    open spec fn obeys_from_spec() -> bool {
        false
    }

    open spec fn from_spec(err: std::io::Error) -> LunoxError {
        arbitrary()
    }
}

/// Lifts a UTF-8 decoding failure: the error carries the text that the
/// failure displays.
impl From<std::str::Utf8Error> for LunoxError {
    fn from(err: std::str::Utf8Error) -> (r: LunoxError)
        ensures
            r matches LunoxError::Utf8(detail) && to_string_from_display_ensures::<std::str::Utf8Error>(
                &err,
                detail,
            ),
            is_substring(r.spec_detail(), r.spec_message()),
    {
        let r = LunoxError::Utf8(err.to_string());
        proof {
            lemma_message_contains_detail(r);
        }
        r
    }
}

impl FromSpecImpl<std::str::Utf8Error> for LunoxError {
    /// What a failure displays is not a function of the failure in
    /// contracts, so `from` is specified by a relation of its own.
    open spec fn obeys_from_spec() -> bool {
        false
    }

    open spec fn from_spec(err: std::str::Utf8Error) -> LunoxError {
        arbitrary()
    }
}

/// Lifts a failure to build an HTTP message: an internal error whose message
/// is the text that the failure displays, behind the transport label.
impl From<http::Error> for LunoxError {
    fn from(err: http::Error) -> (r: LunoxError)
        ensures
            r matches LunoxError::Internal(message) && exists|detail: String|
                #[trigger] to_string_from_display_ensures::<http::Error>(&err, detail)
                    && message@ == "HTTP Error: "@ + detail@,
            exists|detail: String|
                #[trigger] to_string_from_display_ensures::<http::Error>(&err, detail)
                    && is_substring(detail@, r.spec_message()),
    {
        let detail = err.to_string();
        let r = LunoxError::Internal(join("HTTP Error: ", detail.as_str()));
        proof {
            lemma_suffix_is_substring("HTTP Error: "@, detail@);
        }
        r
    }
}

impl FromSpecImpl<http::Error> for LunoxError {
    /// See the other liftings.
    open spec fn obeys_from_spec() -> bool {
        false
    }

    open spec fn from_spec(err: http::Error) -> LunoxError {
        arbitrary()
    }
}

/// The message of every error holds the text that the error carries, whole
/// and unchanged.
pub proof fn lemma_message_contains_detail(e: LunoxError)
    ensures
        is_substring(e.spec_detail(), e.spec_message()),
{
    match e.spec_label() {
        Some(label) => lemma_suffix_is_substring(label, e.spec_detail()),
        None => lemma_suffix_is_substring(Seq::empty(), e.spec_detail()),
    }
    assert(Seq::<char>::empty() + e.spec_detail() =~= e.spec_detail());
}

/// Two calls of `status_code` on one error give the same status.
pub proof fn lemma_status_code_deterministic(e: LunoxError, first: StatusCode, second: StatusCode)
    requires
        call_ensures(LunoxError::status_code, (&e,), first),
        call_ensures(LunoxError::status_code, (&e,), second),
    ensures
        first@ == second@,
{
}

/// Two calls of `message` on one error give the same text.
pub proof fn lemma_message_deterministic(e: LunoxError, first: String, second: String)
    requires
        call_ensures(LunoxError::message, (&e,), first),
        call_ensures(LunoxError::message, (&e,), second),
    ensures
        first@ == second@,
{
}

} // verus!
