//! The response that every handler outcome is turned into.

use crate::errors::LunoxError;
use crate::header::{
    is_header_name, is_header_name_char, is_header_value, is_header_value_char, is_normal_name,
    lemma_normal_only_from_name, lemma_normalized_is_normal, lower_char, normalized_name,
    parse_header_name, parse_header_value,
};
use crate::json::{error_body, write_error_body};
use crate::status::StatusCode;
use std::convert::Infallible;
use vstd::prelude::*;

verus! {

/// One header: its name, then its value.
pub type HeaderView = (Seq<char>, Seq<char>);

/// What a response is: a status, headers in the order in which they go on
/// the wire, and a body.
pub struct ResponseView {
    pub status: int,
    pub headers: Seq<HeaderView>,
    pub body: Seq<char>,
}

/// The headers of `headers`, each as a pair of texts.
pub open spec fn header_views(headers: Seq<(String, String)>) -> Seq<HeaderView> {
    Seq::new(headers.len(), |i: int| (headers[i].0@, headers[i].1@))
}

/// Every name is a header name in lower case, every value is a header value,
/// and no name occurs twice.
pub open spec fn headers_wf(headers: Seq<HeaderView>) -> bool {
    &&& forall|i: int|
        0 <= i < headers.len() ==> is_normal_name((#[trigger] headers[i]).0) && is_header_value(
            headers[i].1,
        )
    &&& forall|i: int, j: int|
        0 <= i < j < headers.len() ==> (#[trigger] headers[i]).0 != (#[trigger] headers[j]).0
}

/// Whether `headers` has a header named `name`.
pub open spec fn has_header(headers: Seq<HeaderView>, name: Seq<char>) -> bool {
    exists|i: int| 0 <= i < headers.len() && (#[trigger] headers[i]).0 == name
}

/// The place of the header named `name` in `headers`, if it has one.
pub open spec fn header_index(headers: Seq<HeaderView>, name: Seq<char>) -> int {
    choose|i: int| 0 <= i < headers.len() && (#[trigger] headers[i]).0 == name
}

/// The value of the header named `name` in `headers`, if it has one.
pub open spec fn header_value(headers: Seq<HeaderView>, name: Seq<char>) -> Option<Seq<char>> {
    if has_header(headers, name) {
        Some(headers[header_index(headers, name)].1)
    } else {
        None
    }
}

/// A response: built once, then only read.
#[derive(Debug)]
pub struct Response {
    status: StatusCode,
    headers: Vec<(String, String)>,
    body: String,
}

impl View for Response {
    type V = ResponseView;

    closed spec fn view(&self) -> ResponseView {
        ResponseView {
            status: self.status@,
            headers: header_views(self.headers@),
            body: self.body@,
        }
    }
}

impl Response {
    /// What holds of every response.
    #[verifier::type_invariant]
    pub open spec fn wf(self) -> bool {
        headers_wf(self@.headers)
    }

    /// The status.
    pub fn status(&self) -> (status: StatusCode)
        ensures
            status@ == self@.status,
    {
        self.status
    }

    /// The body.
    pub fn body(&self) -> (body: &str)
        ensures
            body@ == self@.body,
    {
        self.body.as_str()
    }

    /// The headers, in the order in which they go on the wire.
    pub fn headers(&self) -> (headers: &Vec<(String, String)>)
        ensures
            header_views(headers@) == self@.headers,
            headers_wf(self@.headers),
    {
        proof {
            use_type_invariant(self);
        }
        &self.headers
    }

    /// The value of the header that `key` names, in whatever case `key` is
    /// written.
    pub fn header(&self, key: &str) -> (value: Option<&str>)
        ensures
            match value {
                Some(text) => Some(text@) == header_value(self@.headers, normalized_name(key@)),
                None => header_value(self@.headers, normalized_name(key@)) is None,
            },
    {
        proof {
            use_type_invariant(self);
        }
        match parse_header_name(key) {
            Ok(name) => find_header(&self.headers, &name),
            Err(_) => {
                proof {
                    let name = normalized_name(key@);
                    if has_header(self@.headers, name) {
                        let i = header_index(self@.headers, name);
                        assert(is_normal_name(self@.headers[i].0));
                        lemma_normal_only_from_name(key@);
                    }
                }
                None
            },
        }
    }
}

/// Looks for the header named `name`.
fn find_header<'a>(headers: &'a Vec<(String, String)>, name: &String) -> (value: Option<&'a str>)
    requires
        headers_wf(header_views(headers@)),
    ensures
        match value {
            Some(text) => Some(text@) == header_value(header_views(headers@), name@),
            None => header_value(header_views(headers@), name@) is None,
        },
{
    let ghost views = header_views(headers@);
    let mut i: usize = 0;
    while i < headers.len()
        invariant
            i <= headers.len(),
            views == header_views(headers@),
            headers_wf(views),
            forall|k: int| 0 <= k < i ==> (#[trigger] views[k]).0 != name@,
        decreases headers.len() - i,
    {
        if headers[i].0 == *name {
            proof {
                assert(views[i as int].0 == name@);
                assert(has_header(views, name@));
                let found = header_index(views, name@);
                assert(found == i) by {
                    if found < i {
                        assert(views[found].0 != views[i as int].0);
                    } else if found > i {
                        assert(views[i as int].0 != views[found].0);
                    }
                }
            }
            return Some(headers[i].1.as_str());
        }
        i += 1;
    }
    None
}

/// The name of the header that says what the body is.
pub open spec fn content_type_name() -> Seq<char> {
    "content-type"@
}

/// The content type of a text body.
pub open spec fn text_content_type() -> Seq<char> {
    "text/plain; charset=utf-8"@
}

/// The content type of an error body.
pub open spec fn json_content_type() -> Seq<char> {
    "application/json"@
}

/// The response with the status `status`, no header and an empty body.
pub open spec fn empty_response(status: int) -> ResponseView {
    ResponseView { status, headers: Seq::empty(), body: Seq::empty() }
}

/// The response with the status `status` and the body `body`, whose one
/// header gives `content_type` as the body's type.
pub open spec fn typed_response(
    status: int,
    content_type: Seq<char>,
    body: Seq<char>,
) -> ResponseView {
    ResponseView { status, headers: seq![(content_type_name(), content_type)], body }
}

/// The response that carries `text` as it is.
pub open spec fn text_response(status: int, text: Seq<char>) -> ResponseView {
    typed_response(status, text_content_type(), text)
}

/// The response that reports `error`: its status, and its message and status
/// once more in a JSON body.
pub open spec fn error_response(error: LunoxError) -> ResponseView {
    typed_response(
        error.spec_status(),
        json_content_type(),
        error_body(error.spec_message(), error.spec_status()),
    )
}

/// The content type's name is a header name in lower case.
pub proof fn lemma_content_type_name_is_normal()
    ensures
        is_normal_name(content_type_name()),
{
    reveal_strlit("content-type");
    let name = content_type_name();
    assert forall|i: int| 0 <= i < name.len() implies is_header_name_char(
        #[trigger] name[i],
    ) && lower_char(name[i]) == name[i] by {
        assert(i == 0 || i == 1 || i == 2 || i == 3 || i == 4 || i == 5 || i == 6 || i == 7 || i
            == 8 || i == 9 || i == 10 || i == 11);
    }
    assert(normalized_name(name) =~= name);
}

/// Both content types are header values.
pub proof fn lemma_content_types_are_values()
    ensures
        is_header_value(text_content_type()),
        is_header_value(json_content_type()),
{
    reveal_strlit("text/plain; charset=utf-8");
    reveal_strlit("application/json");
    let text = text_content_type();
    assert forall|i: int| 0 <= i < text.len() implies is_header_value_char(
        #[trigger] text[i],
    ) by {
        assert(i == 0 || i == 1 || i == 2 || i == 3 || i == 4 || i == 5 || i == 6 || i == 7 || i
            == 8 || i == 9 || i == 10 || i == 11 || i == 12 || i == 13 || i == 14 || i == 15 || i
            == 16 || i == 17 || i == 18 || i == 19 || i == 20 || i == 21 || i == 22 || i == 23
            || i == 24);
    }
    let json = json_content_type();
    assert forall|i: int| 0 <= i < json.len() implies is_header_value_char(
        #[trigger] json[i],
    ) by {
        assert(i == 0 || i == 1 || i == 2 || i == 3 || i == 4 || i == 5 || i == 6 || i == 7 || i
            == 8 || i == 9 || i == 10 || i == 11 || i == 12 || i == 13 || i == 14 || i == 15);
    }
}

/// Builds the response with one header, the content type.
fn respond(status: StatusCode, content_type: &str, body: String) -> (r: Response)
    requires
        is_header_value(content_type@),
    ensures
        r@ == typed_response(status@, content_type@, body@),
{
    let mut headers: Vec<(String, String)> = Vec::new();
    headers.push(("content-type".to_owned(), content_type.to_owned()));
    proof {
        lemma_content_type_name_is_normal();
        assert(header_views(headers@) =~= seq![(content_type_name(), content_type@)]);
    }
    Response { status, headers, body }
}

/// What can be turned into a response.
pub trait IntoResponse: Sized {
    /// The response that the value is turned into.
    spec fn response_view(self) -> ResponseView;

    /// Turns the value into its response.
    fn into_response(self) -> (r: Response)
        ensures
            r@ == self.response_view(),
    ;
}

/// A response is its own response.
impl IntoResponse for Response {
    open spec fn response_view(self) -> ResponseView {
        self@
    }

    fn into_response(self) -> (r: Response)
        ensures
            r == self,
    {
        self
    }
}

/// A text is answered with status 200 and the text as the body.
impl IntoResponse for String {
    open spec fn response_view(self) -> ResponseView {
        text_response(200, self@)
    }

    fn into_response(self) -> (r: Response) {
        proof {
            lemma_content_types_are_values();
        }
        respond(StatusCode::ok(), "text/plain; charset=utf-8", self)
    }
}

/// A text is answered with status 200 and the text as the body.
impl IntoResponse for &'static str {
    open spec fn response_view(self) -> ResponseView {
        text_response(200, self@)
    }

    fn into_response(self) -> (r: Response) {
        proof {
            lemma_content_types_are_values();
        }
        respond(StatusCode::ok(), "text/plain; charset=utf-8", self.to_owned())
    }
}

/// A status with a text is answered with both.
impl IntoResponse for (StatusCode, String) {
    open spec fn response_view(self) -> ResponseView {
        text_response(self.0@, self.1@)
    }

    fn into_response(self) -> (r: Response) {
        proof {
            lemma_content_types_are_values();
        }
        respond(self.0, "text/plain; charset=utf-8", self.1)
    }
}

/// A status with a text is answered with both.
impl IntoResponse for (StatusCode, &'static str) {
    open spec fn response_view(self) -> ResponseView {
        text_response(self.0@, self.1@)
    }

    fn into_response(self) -> (r: Response) {
        proof {
            lemma_content_types_are_values();
        }
        respond(self.0, "text/plain; charset=utf-8", self.1.to_owned())
    }
}

/// A status alone is answered with no header and an empty body.
impl IntoResponse for StatusCode {
    open spec fn response_view(self) -> ResponseView {
        empty_response(self@)
    }

    fn into_response(self) -> (r: Response) {
        let r = Response { status: self, headers: Vec::new(), body: String::new() };
        assert(r@.headers =~= Seq::empty());
        r
    }
}

/// An error is answered with its status and a JSON body that holds its
/// message and its status.
impl IntoResponse for LunoxError {
    open spec fn response_view(self) -> ResponseView {
        error_response(self)
    }

    fn into_response(self) -> (r: Response) {
        let status = self.status_code();
        let message = self.message();
        let body = write_error_body(message.as_str(), status.as_u16());
        proof {
            lemma_content_types_are_values();
        }
        respond(status, "application/json", body)
    }
}

/// A result is answered as what it holds.
impl<T: IntoResponse> IntoResponse for Result<T, LunoxError> {
    open spec fn response_view(self) -> ResponseView {
        match self {
            Ok(resp) => resp.response_view(),
            Err(err) => err.response_view(),
        }
    }

    fn into_response(self) -> (r: Response) {
        match self {
            Ok(resp) => resp.into_response(),
            Err(err) => err.into_response(),
        }
    }
}

/// No value of this type exists, so this is never entered: the impl lets a
/// handler that cannot fail say so in its type.
impl IntoResponse for Infallible {
    open spec fn response_view(self) -> ResponseView {
        empty_response(500)
    }

    fn into_response(self) -> (r: Response) {
        StatusCode::internal_server_error().into_response()
    }
}

/// A result is answered exactly as the value or the error in it would be.
pub proof fn lemma_result_is_answered_as_its_content<T: IntoResponse>(value: T, error: LunoxError)
    ensures
        Ok::<T, LunoxError>(value).response_view() == value.response_view(),
        Err::<T, LunoxError>(error).response_view() == error.response_view(),
{
}

/// Why a response could not be built.
#[derive(Clone, Copy, Debug, PartialEq, Eq, Structural)]
pub enum BuildError {
    /// A key cannot name a header.
    InvalidHeaderName,
    /// A value cannot be a header's value.
    InvalidHeaderValue,
}

/// `headers` with the header `name` set to `value`: in the place of the
/// header of that name if there is one, at the end if not.
pub open spec fn set_header(
    headers: Seq<HeaderView>,
    name: Seq<char>,
    value: Seq<char>,
) -> Seq<HeaderView> {
    if has_header(headers, name) {
        headers.update(header_index(headers, name), (name, value))
    } else {
        headers.push((name, value))
    }
}

/// Setting a header gives that name its value, leaves every other name's
/// value as it was, and adds an entry only for a name that was not there.
pub proof fn lemma_set_header(
    headers: Seq<HeaderView>,
    name: Seq<char>,
    value: Seq<char>,
    other: Seq<char>,
)
    requires
        headers_wf(headers),
    ensures
        header_value(set_header(headers, name, value), name) == Some(value),
        other != name ==> header_value(set_header(headers, name, value), other) == header_value(
            headers,
            other,
        ),
        set_header(headers, name, value).len() == if has_header(headers, name) {
            headers.len()
        } else {
            headers.len() + 1
        },
{
    let after = set_header(headers, name, value);
    let at = if has_header(headers, name) {
        header_index(headers, name)
    } else {
        headers.len() as int
    };
    assert(after[at] == (name, value));
    assert(has_header(after, name));
    let found = header_index(after, name);
    assert(after[found].0 == name);
    if found != at {
        assert(headers[found].0 == name);
        if has_header(headers, name) {
            if found < at {
                assert(headers[found].0 != headers[at].0);
            } else {
                assert(headers[at].0 != headers[found].0);
            }
        }
    }
    if other != name {
        if has_header(headers, other) {
            let i = header_index(headers, other);
            assert(after[i] == headers[i]);
            assert(has_header(after, other));
            let j = header_index(after, other);
            assert(after[j].0 == other);
            assert(headers[j] == after[j]);
            if i < j {
                assert(headers[i].0 != headers[j].0);
            } else if j < i {
                assert(headers[j].0 != headers[i].0);
            }
        } else {
            if has_header(after, other) {
                let j = header_index(after, other);
                assert(headers[j].0 == other);
            }
        }
    }
}

/// What a builder has been told so far: the status, the headers, and the
/// first key or value that it had to refuse.
pub struct BuilderView {
    pub status: int,
    pub headers: Seq<HeaderView>,
    pub error: Option<BuildError>,
}

impl BuilderView {
    /// The builder after it was given a header. Once a key or a value was
    /// refused, nothing more is taken in; a key is looked at before its value.
    pub open spec fn with_header(self, key: Seq<char>, value: Seq<char>) -> BuilderView {
        if self.error is Some {
            self
        } else if !is_header_name(key) {
            BuilderView { error: Some(BuildError::InvalidHeaderName), ..self }
        } else if !is_header_value(value) {
            BuilderView { error: Some(BuildError::InvalidHeaderValue), ..self }
        } else {
            BuilderView { headers: set_header(self.headers, normalized_name(key), value), ..self }
        }
    }

    /// What `build` makes of the builder.
    pub open spec fn outcome(self) -> Result<ResponseView, BuildError> {
        match self.error {
            Some(error) => Err(error),
            None => Ok(
                ResponseView { status: self.status, headers: self.headers, body: Seq::empty() },
            ),
        }
    }
}

/// Sets a header that was found to be well formed.
fn store_header(headers: &mut Vec<(String, String)>, name: String, value: String)
    requires
        headers_wf(header_views(old(headers)@)),
        is_normal_name(name@),
        is_header_value(value@),
    ensures
        header_views(final(headers)@) == set_header(header_views(old(headers)@), name@, value@),
        headers_wf(header_views(final(headers)@)),
{
    let ghost before = header_views(headers@);
    let mut i: usize = 0;
    while i < headers.len()
        invariant
            i <= headers.len(),
            headers@ == old(headers)@,
            before == header_views(headers@),
            headers_wf(before),
            is_normal_name(name@),
            is_header_value(value@),
            forall|k: int| 0 <= k < i ==> (#[trigger] before[k]).0 != name@,
        decreases headers.len() - i,
    {
        if headers[i].0 == name {
            proof {
                assert(before[i as int].0 == name@);
                assert(has_header(before, name@));
                let found = header_index(before, name@);
                assert(found == i) by {
                    if found < i {
                        assert(before[found].0 != before[i as int].0);
                    } else if found > i {
                        assert(before[i as int].0 != before[found].0);
                    }
                }
            }
            headers.set(i, (name, value));
            proof {
                let after = header_views(headers@);
                assert(after =~= before.update(i as int, (name@, value@)));
                assert forall|k: int| 0 <= k < after.len() implies is_normal_name(
                    (#[trigger] after[k]).0,
                ) && is_header_value(after[k].1) by {
                    if k != i {
                        assert(is_normal_name(before[k].0) && is_header_value(before[k].1));
                    }
                }
                assert forall|a: int, b: int| 0 <= a < b < after.len() implies (
                #[trigger] after[a]).0 != (#[trigger] after[b]).0 by {
                    assert(before[a].0 != before[b].0);
                }
            }
            return ;
        }
        i += 1;
    }
    headers.push((name, value));
    proof {
        let after = header_views(headers@);
        assert(!has_header(before, name@));
        assert(after =~= before.push((name@, value@)));
        assert forall|k: int| 0 <= k < after.len() implies is_normal_name((#[trigger] after[k]).0)
            && is_header_value(after[k].1) by {
            if k < before.len() {
                assert(is_normal_name(before[k].0) && is_header_value(before[k].1));
            }
        }
        assert forall|a: int, b: int| 0 <= a < b < after.len() implies (#[trigger] after[a]).0 != (
        #[trigger] after[b]).0 by {
            if b < before.len() {
                assert(before[a].0 != before[b].0);
            } else {
                assert(before[a].0 != name@);
            }
        }
    }
}

/// Builds a response step by step. A key or a value that cannot go on the
/// wire is remembered, and `build` reports it.
#[derive(Debug)]
pub struct ResponseBuilder {
    status: StatusCode,
    headers: Vec<(String, String)>,
    error: Option<BuildError>,
}

impl View for ResponseBuilder {
    type V = BuilderView;

    closed spec fn view(&self) -> BuilderView {
        BuilderView {
            status: self.status@,
            headers: header_views(self.headers@),
            error: self.error,
        }
    }
}

impl ResponseBuilder {
    /// What holds of every builder.
    #[verifier::type_invariant]
    pub open spec fn wf(self) -> bool {
        headers_wf(self@.headers)
    }

    /// A builder for a response with status 200, no header and an empty body.
    pub fn new() -> (r: ResponseBuilder)
        ensures
            r@ == (BuilderView { status: 200, headers: Seq::empty(), error: None }),
    {
        let r = ResponseBuilder { status: StatusCode::ok(), headers: Vec::new(), error: None };
        assert(r@.headers =~= Seq::empty());
        r
    }

    /// Replaces the status and keeps everything else.
    pub fn status(self, status: StatusCode) -> (r: ResponseBuilder)
        ensures
            r@ == (BuilderView { status: status@, ..self@ }),
    {
        proof {
            use_type_invariant(&self);
        }
        ResponseBuilder { status, headers: self.headers, error: self.error }
    }

    /// Sets the header that `key` names to `value`, if both can go on the
    /// wire; remembers the refusal if not.
    pub fn header(self, key: &str, value: &str) -> (r: ResponseBuilder)
        ensures
            r@ == self@.with_header(key@, value@),
    {
        proof {
            use_type_invariant(&self);
        }
        if self.error.is_some() {
            return self;
        }
        let name = match parse_header_name(key) {
            Ok(name) => name,
            Err(_) => {
                return ResponseBuilder {
                    status: self.status,
                    headers: self.headers,
                    error: Some(BuildError::InvalidHeaderName),
                };
            },
        };
        match parse_header_value(value) {
            Ok(_) => {},
            Err(_) => {
                return ResponseBuilder {
                    status: self.status,
                    headers: self.headers,
                    error: Some(BuildError::InvalidHeaderValue),
                };
            },
        }
        let mut headers = self.headers;
        proof {
            lemma_normalized_is_normal(key@);
        }
        store_header(&mut headers, name, value.to_owned());
        ResponseBuilder { status: self.status, headers, error: None }
    }

    /// The response, or the first refusal.
    pub fn build(self) -> (r: Result<Response, BuildError>)
        ensures
            match r {
                Ok(response) => Ok::<ResponseView, BuildError>(response@) == self@.outcome(),
                Err(error) => Err::<ResponseView, BuildError>(error) == self@.outcome(),
            },
    {
        proof {
            use_type_invariant(&self);
        }
        match self.error {
            Some(error) => Err(error),
            None => Ok(Response { status: self.status, headers: self.headers, body: String::new() }),
        }
    }
}

} // verus!
