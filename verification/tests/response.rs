use lunox::{BuildError, IntoResponse, LunoxError, Response, ResponseBuilder, StatusCode};
use std::convert::Infallible;

fn status(n: u16) -> StatusCode {
    StatusCode::from_u16(n).unwrap()
}

fn pairs(r: &Response) -> Vec<(String, String)> {
    r.headers().clone()
}

fn pair(name: &str, value: &str) -> (String, String) {
    (name.to_string(), value.to_string())
}

#[test]
fn built_response_passes_through() {
    let built = ResponseBuilder::new()
        .status(status(202))
        .header("X-A", "1")
        .header("X-B", "2")
        .build()
        .unwrap();
    let headers = pairs(&built);
    let r = built.into_response();
    assert_eq!(r.status().as_u16(), 202);
    assert_eq!(pairs(&r), headers);
    assert_eq!(r.body(), "");

    let text = "hello".into_response();
    let again = text.into_response();
    assert_eq!(again.status().as_u16(), 200);
    assert_eq!(pairs(&again), vec![pair("content-type", "text/plain; charset=utf-8")]);
    assert_eq!(again.body(), "hello");
}

#[test]
fn text_is_answered_with_200() {
    let r = "hello".into_response();
    assert_eq!(r.status().as_u16(), 200);
    assert_eq!(r.header("Content-Type"), Some("text/plain; charset=utf-8"));
    assert_eq!(pairs(&r).len(), 1);
    assert_eq!(r.body(), "hello");

    let r = String::from("hello").into_response();
    assert_eq!(r.status().as_u16(), 200);
    assert_eq!(r.header("Content-Type"), Some("text/plain; charset=utf-8"));
    assert_eq!(r.body(), "hello");
}

#[test]
fn text_is_not_escaped() {
    let r = "a \"b\" \\ <c>\n\u{e9}".into_response();
    assert_eq!(r.body(), "a \"b\" \\ <c>\n\u{e9}");
}

#[test]
fn status_with_text() {
    let r = (status(404), "missing").into_response();
    assert_eq!(r.status().as_u16(), 404);
    assert_eq!(r.header("Content-Type"), Some("text/plain; charset=utf-8"));
    assert_eq!(r.body(), "missing");

    let r = (status(404), String::from("missing")).into_response();
    assert_eq!(r.status().as_u16(), 404);
    assert_eq!(r.header("Content-Type"), Some("text/plain; charset=utf-8"));
    assert_eq!(r.body(), "missing");
}

#[test]
fn status_alone() {
    let r = status(204).into_response();
    assert_eq!(r.status().as_u16(), 204);
    assert!(pairs(&r).is_empty());
    assert_eq!(r.header("Content-Type"), None);
    assert_eq!(r.body(), "");
}

#[test]
fn not_found_error() {
    let r = LunoxError::NotFound("missing".to_string()).into_response();
    assert_eq!(r.status().as_u16(), 404);
    assert_eq!(r.header("Content-Type"), Some("application/json"));
    assert_eq!(pairs(&r), vec![pair("content-type", "application/json")]);
    assert_eq!(r.body(), "{\"error\":\"missing\",\"status\":404}");
}

#[test]
fn custom_error() {
    let r = LunoxError::Custom(status(409), "conflict".to_string()).into_response();
    assert_eq!(r.status().as_u16(), 409);
    assert_eq!(r.header("content-type"), Some("application/json"));
    assert_eq!(r.body(), "{\"error\":\"conflict\",\"status\":409}");
}

#[test]
fn lifted_error_body() {
    let r = LunoxError::Io("disk".to_string()).into_response();
    assert_eq!(r.status().as_u16(), 500);
    assert_eq!(r.body(), "{\"error\":\"IO Error: disk\",\"status\":500}");
}

#[test]
fn error_message_is_escaped_as_json() {
    let r = LunoxError::BadRequest("say \"hi\"\\\n\t\u{1}\u{e9}".to_string()).into_response();
    assert_eq!(
        r.body(),
        "{\"error\":\"say \\\"hi\\\"\\\\\\n\\t\\u0001\u{e9}\",\"status\":400}"
    );
    let value: serde_json::Value = serde_json::from_str(r.body()).unwrap();
    assert_eq!(value["error"], "say \"hi\"\\\n\t\u{1}\u{e9}");
    assert_eq!(value["status"], 400);
    assert_eq!(value.as_object().unwrap().len(), 2);
}

#[test]
fn empty_error_message_is_an_empty_member() {
    let r = LunoxError::Internal(String::new()).into_response();
    assert_eq!(r.body(), "{\"error\":\"\",\"status\":500}");
}

#[test]
fn error_body_matches_the_json_crate() {
    let e = LunoxError::Custom(status(100), "x".to_string());
    let mut object = serde_json::Map::new();
    object.insert("error".to_string(), serde_json::Value::from(e.message()));
    object.insert("status".to_string(), serde_json::Value::from(e.status_code().as_u16()));
    let expected = serde_json::to_string(&serde_json::Value::Object(object)).unwrap();
    assert_eq!(e.into_response().body(), expected);
}

#[test]
fn result_is_answered_as_its_content() {
    let wrapped: Result<&'static str, LunoxError> = Ok("ok");
    let a = wrapped.into_response();
    let b = "ok".into_response();
    assert_eq!(a.status().as_u16(), b.status().as_u16());
    assert_eq!(pairs(&a), pairs(&b));
    assert_eq!(a.body(), b.body());
    assert_eq!(a.body(), "ok");

    let wrapped: Result<&'static str, LunoxError> = Err(LunoxError::Unauthorized("no".to_string()));
    let a = wrapped.into_response();
    let b = LunoxError::Unauthorized("no".to_string()).into_response();
    assert_eq!(a.status().as_u16(), 401);
    assert_eq!(a.status().as_u16(), b.status().as_u16());
    assert_eq!(pairs(&a), pairs(&b));
    assert_eq!(a.body(), b.body());
    assert_eq!(a.body(), "{\"error\":\"no\",\"status\":401}");
}

#[test]
fn result_of_a_handler_that_cannot_fail() {
    fn handler() -> Result<Response, LunoxError> {
        let never: Result<&'static str, Infallible> = Ok("fine");
        match never {
            Ok(text) => Ok(text.into_response()),
            Err(never) => Ok(never.into_response()),
        }
    }
    let r = handler().into_response();
    assert_eq!(r.status().as_u16(), 200);
    assert_eq!(r.body(), "fine");
}

#[test]
fn builder_starts_empty() {
    let r = ResponseBuilder::new().build().unwrap();
    assert_eq!(r.status().as_u16(), 200);
    assert!(pairs(&r).is_empty());
    assert_eq!(r.body(), "");
}

#[test]
fn builder_keeps_headers_when_status_changes() {
    let r = ResponseBuilder::new().status(status(201)).header("X-A", "1").build().unwrap();
    assert_eq!(r.status().as_u16(), 201);
    assert_eq!(r.header("X-A"), Some("1"));

    let r = ResponseBuilder::new().header("X-A", "1").status(status(201)).build().unwrap();
    assert_eq!(r.status().as_u16(), 201);
    assert_eq!(r.header("X-A"), Some("1"));
    assert_eq!(pairs(&r), vec![pair("x-a", "1")]);
}

#[test]
fn builder_reports_invalid_value() {
    let r = ResponseBuilder::new().header("X-A", "a\nb").build();
    assert_eq!(r.unwrap_err(), BuildError::InvalidHeaderValue);
    let r = ResponseBuilder::new().header("X-A", "\u{7f}").build();
    assert_eq!(r.unwrap_err(), BuildError::InvalidHeaderValue);
    let r = ResponseBuilder::new().header("X-A", "\u{0}").build();
    assert_eq!(r.unwrap_err(), BuildError::InvalidHeaderValue);
}

#[test]
fn builder_reports_invalid_name() {
    for key in ["", "bad name", "x:y", "caf\u{e9}", "a\n", "(x)", "a/b", "a=b", "{a}"] {
        let r = ResponseBuilder::new().header(key, "v").build();
        assert_eq!(r.unwrap_err(), BuildError::InvalidHeaderName, "{:?}", key);
    }
    let long = "a".repeat(65536);
    let r = ResponseBuilder::new().header(&long, "v").build();
    assert_eq!(r.unwrap_err(), BuildError::InvalidHeaderName);
}

#[test]
fn builder_accepts_what_the_wire_accepts() {
    let key = "!\"#$%&'*+-.^_`|~09azAZ";
    let r = ResponseBuilder::new().header(key, "\ttab and \u{e9} ~").build().unwrap();
    assert_eq!(pairs(&r), vec![pair("!\"#$%&'*+-.^_`|~09azaz", "\ttab and \u{e9} ~")]);
    let long = "A".repeat(65535);
    let r = ResponseBuilder::new().header(&long, "").build().unwrap();
    assert_eq!(pairs(&r), vec![("a".repeat(65535), String::new())]);
    let middling = "Ab".repeat(40);
    let r = ResponseBuilder::new().header(&middling, "v").build().unwrap();
    assert_eq!(pairs(&r), vec![("ab".repeat(40), "v".to_string())]);
}

#[test]
fn builder_agrees_with_the_http_crate() {
    for byte in 0u8..=127 {
        let text = String::from(byte as char);
        let name = ResponseBuilder::new().header(&text, "v").build();
        assert_eq!(name.is_ok(), http::header::HeaderName::from_bytes(text.as_bytes()).is_ok());
        if let Ok(r) = name {
            let expected = http::header::HeaderName::from_bytes(text.as_bytes()).unwrap();
            assert_eq!(r.headers()[0].0, expected.as_str());
        }
        let value = ResponseBuilder::new().header("x", &text).build();
        assert_eq!(value.is_ok(), http::header::HeaderValue::from_str(&text).is_ok());
    }
}

#[test]
fn builder_keeps_the_first_failure() {
    let r = ResponseBuilder::new()
        .header("X-A", "a\nb")
        .header("bad name", "v")
        .header("X-B", "2")
        .build();
    assert_eq!(r.unwrap_err(), BuildError::InvalidHeaderValue);
    let r = ResponseBuilder::new().header("bad name", "a\nb").build();
    assert_eq!(r.unwrap_err(), BuildError::InvalidHeaderName);
    let r = ResponseBuilder::new().header("", "v").status(status(201)).build();
    assert_eq!(r.unwrap_err(), BuildError::InvalidHeaderName);
}

#[test]
fn builder_overwrites_in_place() {
    let r = ResponseBuilder::new()
        .header("X-A", "1")
        .header("X-B", "2")
        .header("x-a", "3")
        .header("X-C", "4")
        .build()
        .unwrap();
    assert_eq!(pairs(&r), vec![pair("x-a", "3"), pair("x-b", "2"), pair("x-c", "4")]);
    assert_eq!(r.header("X-A"), Some("3"));
    assert_eq!(r.header("x-b"), Some("2"));
    assert_eq!(r.header("X-D"), None);
    assert_eq!(r.header("not a name"), None);
}
