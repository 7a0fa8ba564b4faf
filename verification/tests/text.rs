use lunox::json::{write_error_body, write_error_envelope};
use lunox::text::{join, u16_to_decimal};
use lunox::StatusCode;

#[test]
fn decimal_digits() {
    assert_eq!(u16_to_decimal(0), "0");
    assert_eq!(u16_to_decimal(9), "9");
    assert_eq!(u16_to_decimal(10), "10");
    assert_eq!(u16_to_decimal(404), "404");
    assert_eq!(u16_to_decimal(1000), "1000");
    assert_eq!(u16_to_decimal(65535), "65535");
    for n in 0u16..=2000 {
        assert_eq!(u16_to_decimal(n), n.to_string());
    }
}

#[test]
fn join_puts_tail_after_head() {
    assert_eq!(join("", ""), "");
    assert_eq!(join("IO Error: ", "disk"), "IO Error: disk");
    assert_eq!(join("a", ""), "a");
}

#[test]
fn envelope_has_two_members() {
    assert_eq!(write_error_envelope("\"missing\"", 404), "{\"error\":\"missing\",\"status\":404}");
    assert_eq!(write_error_envelope("\"\"", 100), "{\"error\":\"\",\"status\":100}");
}

#[test]
fn error_body_quotes_the_message() {
    assert_eq!(write_error_body("missing", 404), "{\"error\":\"missing\",\"status\":404}");
    assert_eq!(write_error_body("a\"b", 500), "{\"error\":\"a\\\"b\",\"status\":500}");
}

#[test]
fn status_code_bounds() {
    assert!(StatusCode::from_u16(0).is_err());
    assert!(StatusCode::from_u16(99).is_err());
    assert_eq!(StatusCode::from_u16(100).unwrap().as_u16(), 100);
    assert_eq!(StatusCode::from_u16(999).unwrap().as_u16(), 999);
    assert!(StatusCode::from_u16(1000).is_err());
    assert!(StatusCode::from_u16(65535).is_err());
    for n in 0u16..=1100 {
        assert_eq!(StatusCode::from_u16(n).is_ok(), http::StatusCode::from_u16(n).is_ok());
    }
}

#[test]
fn named_status_codes() {
    assert_eq!(StatusCode::ok().as_u16(), 200);
    assert_eq!(StatusCode::bad_request().as_u16(), 400);
    assert_eq!(StatusCode::unauthorized().as_u16(), 401);
    assert_eq!(StatusCode::forbidden().as_u16(), 403);
    assert_eq!(StatusCode::not_found().as_u16(), 404);
    assert_eq!(StatusCode::internal_server_error().as_u16(), 500);
}
