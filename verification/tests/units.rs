//! Unit tests for the parsers, the text helpers and the response builders.

use message_board::model::{StoreError, ValidationError};
use message_board::parse::{parse_new_message, parse_time_range, parse_username};
use message_board::render::{format_date, html_escape, render_page};
use message_board::response::{error_response, get_response, not_found_response, post_response,
    ContentType};
use message_board::store::MessageStore;
use message_board::text::{i64_to_string, parse_i64, str_eq};

#[test]
fn parse_i64_accepts_plain_signed_and_bounds() {
    assert_eq!(parse_i64("123"), Some(123));
    assert_eq!(parse_i64("-45"), Some(-45));
    assert_eq!(parse_i64("+42"), Some(42));
    assert_eq!(parse_i64("007"), Some(7));
    assert_eq!(parse_i64("0"), Some(0));
    assert_eq!(parse_i64("-9223372036854775808"), Some(i64::MIN));
    assert_eq!(parse_i64("9223372036854775807"), Some(i64::MAX));
}

#[test]
fn parse_i64_rejects_malformed_and_overflow() {
    assert_eq!(parse_i64(""), None);
    assert_eq!(parse_i64("-"), None);
    assert_eq!(parse_i64("+"), None);
    assert_eq!(parse_i64("12a"), None);
    assert_eq!(parse_i64("a12"), None);
    assert_eq!(parse_i64(" 1"), None);
    assert_eq!(parse_i64("9223372036854775808"), None);
    assert_eq!(parse_i64("-9223372036854775809"), None);
    assert_eq!(parse_i64("99999999999999999999999"), None);
}

#[test]
fn i64_to_string_renders_decimals() {
    assert_eq!(i64_to_string(0), "0");
    assert_eq!(i64_to_string(7), "7");
    assert_eq!(i64_to_string(-1), "-1");
    assert_eq!(i64_to_string(12345), "12345");
    assert_eq!(i64_to_string(i64::MIN), "-9223372036854775808");
    assert_eq!(i64_to_string(i64::MAX), "9223372036854775807");
}

#[test]
fn str_eq_compares_characters() {
    assert!(str_eq("abc", "abc"));
    assert!(!str_eq("abc", "abd"));
    assert!(!str_eq("abc", "ab"));
    assert!(str_eq("", ""));
}

#[test]
fn new_message_defaults_username() {
    let nm = parse_new_message(b"message=hello").unwrap();
    assert_eq!(nm.username, "unknown");
    assert_eq!(nm.message, "hello");

    let nm = parse_new_message(b"message=hi&username=bob").unwrap();
    assert_eq!(nm.username, "bob");

    let nm = parse_new_message(b"message=hi&username=").unwrap();
    assert_eq!(nm.username, "unknown");
}

#[test]
fn new_message_requires_nonempty_message() {
    let e = parse_new_message(b"username=alice").unwrap_err();
    assert!(matches!(e, ValidationError::MissingField { ref field } if field == "message"));
    let e = parse_new_message(b"message=").unwrap_err();
    assert!(matches!(e, ValidationError::MissingField { ref field } if field == "message"));
    let e = parse_new_message(b"").unwrap_err();
    assert!(matches!(e, ValidationError::MissingField { ref field } if field == "message"));
}

#[test]
fn form_decoding_unescapes_values() {
    let nm = parse_new_message(b"message=hello+world%21&username=a+b").unwrap();
    assert_eq!(nm.message, "hello world!");
    assert_eq!(nm.username, "a b");
}

#[test]
fn later_duplicate_field_wins() {
    let nm = parse_new_message(b"message=a&message=b").unwrap();
    assert_eq!(nm.message, "b");
}

#[test]
fn time_range_parses_bounds() {
    let tr = parse_time_range("before=10&after=2").unwrap();
    assert_eq!(tr.before, Some(10));
    assert_eq!(tr.after, Some(2));

    let tr = parse_time_range("").unwrap();
    assert_eq!(tr.before, None);
    assert_eq!(tr.after, None);

    let tr = parse_time_range("after=-5").unwrap();
    assert_eq!(tr.before, None);
    assert_eq!(tr.after, Some(-5));
}

#[test]
fn time_range_reports_before_first() {
    let e = parse_time_range("before=abc&after=def").unwrap_err();
    assert!(matches!(
        e,
        ValidationError::InvalidParameter { ref field, ref value } if field == "before" && value == "abc"
    ));
    let e = parse_time_range("after=xyz").unwrap_err();
    assert!(matches!(
        e,
        ValidationError::InvalidParameter { ref field, ref value } if field == "after" && value == "xyz"
    ));
}

#[test]
fn username_requires_presence_only() {
    assert_eq!(parse_username("username=alice&x=1").unwrap(), "alice");
    assert_eq!(parse_username("username=").unwrap(), "");
    let e = parse_username("foo=1").unwrap_err();
    assert!(matches!(e, ValidationError::MissingField { ref field } if field == "username"));
}

#[test]
fn html_escaping_neutralises_markup() {
    assert_eq!(html_escape("a<b>&\"c\""), "a&lt;b&gt;&amp;&quot;c&quot;");
    assert_eq!(html_escape("plain"), "plain");
    assert_eq!(html_escape(""), "");
}

#[test]
fn rendered_page_escapes_user_content() {
    let mut store = MessageStore::new();
    let nm = message_board::model::NewMessage {
        username: "eve".to_string(),
        message: "<script>alert(\"x\")&co".to_string(),
    };
    store.insert_message(&nm, 50).unwrap();
    let rows = store.select_by_username("eve").unwrap();
    let page = render_page(&rows);
    assert!(page.contains("&lt;script&gt;alert(&quot;x&quot;)&amp;co"));
    assert!(!page.contains("<script>"));
}

#[test]
fn empty_page_shows_heading() {
    let page = render_page(&Vec::new());
    assert_eq!(
        page,
        "<head><title>Message Service</title><style>body { font-family: monospace }</style></head><body><h1>No messages found</h1></body>"
    );
}

#[test]
fn date_formatting_matches_calendar() {
    assert_eq!(format_date(0), "1970-01-01 00:00:00");
    assert_eq!(format_date(1431648000), "2015-05-15 00:00:00");
    assert_eq!(format_date(-1), "1969-12-31 23:59:59");
}

#[test]
fn error_response_escapes_its_message() {
    let r = error_response("a \"quoted\" message");
    assert_eq!(r.status, 400);
    assert_eq!(r.body, "{\"error\":\"a \\\"quoted\\\" message\"}");
}

#[test]
fn post_response_renders_timestamp_or_failure() {
    let ok = post_response(Ok(5));
    assert_eq!(ok.status, 200);
    assert_eq!(ok.content_type, Some(ContentType::Json));
    assert_eq!(ok.body, "{\"timestamp\":5}");

    let err = post_response(Err(StoreError));
    assert_eq!(err.status, 500);
    assert_eq!(err.body, "{\"error\":\"service error\"}");
}

#[test]
fn list_response_keeps_failure_distinct_from_empty() {
    let empty = get_response(Ok(Vec::new()));
    assert_eq!(empty.status, 200);
    assert_eq!(empty.content_type, Some(ContentType::Html));
    assert!(empty.body.contains("No messages found"));

    let failed = get_response(Err(StoreError));
    assert_eq!(failed.status, 500);
    assert_eq!(failed.content_type, None);
    assert_eq!(failed.body, "");
}

#[test]
fn not_found_has_no_body() {
    let r = not_found_response();
    assert_eq!(r.status, 404);
    assert_eq!(r.content_type, None);
    assert_eq!(r.body, "");
}

#[test]
fn validation_error_messages() {
    let e = ValidationError::MissingField { field: "message".to_string() };
    assert_eq!(e.message(), "Missing field 'message'");
    let e = ValidationError::InvalidParameter {
        field: "before".to_string(),
        value: "abc".to_string(),
    };
    assert_eq!(e.message(), "Error parsing 'before': invalid value 'abc'");
}
