//! End-to-end scenarios through the dispatcher.

use message_board::model::{NewMessage, TimeRange};
use message_board::render::format_date;
use message_board::response::ContentType;
use message_board::router::{handle_request, Method};
use message_board::store::MessageStore;

#[test]
fn post_then_get_user_page() {
    let mut store = MessageStore::new();
    let r = handle_request(
        &mut store,
        Method::Post,
        "/",
        None,
        b"message=hello&username=alice",
        1000000,
    );
    assert_eq!(r.status, 200);
    assert_eq!(r.content_type, Some(ContentType::Json));
    assert_eq!(r.body, "{\"timestamp\":1000000}");

    let page = handle_request(
        &mut store,
        Method::Get,
        "/user",
        Some("username=alice"),
        b"",
        1000001,
    );
    assert_eq!(page.status, 200);
    assert_eq!(page.content_type, Some(ContentType::Html));
    let expected = format!(
        "<head><title>Message Service</title><style>body {{ font-family: monospace }}</style></head><body><ul><li>alice ({}): hello</li></ul></body>",
        format_date(1000000)
    );
    assert_eq!(page.body, expected);
    assert!(page.body.contains("alice ("));
    assert!(page.body.contains("): hello"));
}

#[test]
fn post_without_message_rejected_and_nothing_stored() {
    let mut store = MessageStore::new();
    let r = handle_request(&mut store, Method::Post, "/", None, b"username=alice", 5);
    assert_eq!(r.status, 400);
    assert_eq!(r.content_type, Some(ContentType::Json));
    assert_eq!(r.body, "{\"error\":\"Missing field 'message'\"}");

    let all = handle_request(&mut store, Method::Get, "/", None, b"", 6);
    assert_eq!(all.status, 200);
    assert!(all.body.contains("No messages found"));
}

#[test]
fn get_with_bad_before_rejected_before_any_query() {
    let mut store = MessageStore::new();
    let r = handle_request(&mut store, Method::Get, "/", Some("before=abc"), b"", 7);
    assert_eq!(r.status, 400);
    assert_eq!(r.body, "{\"error\":\"Error parsing 'before': invalid value 'abc'\"}");
}

#[test]
fn get_user_without_query_is_bare_not_found() {
    let mut store = MessageStore::new();
    let r = handle_request(&mut store, Method::Get, "/user", None, b"", 8);
    assert_eq!(r.status, 404);
    assert_eq!(r.content_type, None);
    assert_eq!(r.body, "");
}

#[test]
fn unknown_route_is_not_found_for_every_method() {
    let mut store = MessageStore::new();
    for method in [Method::Get, Method::Post, Method::Other] {
        let r = handle_request(&mut store, method, "/nonexistent", None, b"", 9);
        assert_eq!(r.status, 404);
        assert_eq!(r.body, "");
    }
    let r = handle_request(&mut store, Method::Other, "/", None, b"", 9);
    assert_eq!(r.status, 404);
}

#[test]
fn time_range_forms_filter_exactly() {
    let mut store = MessageStore::new();
    for (text, now) in [("one", 100), ("two", 200), ("three", 300)] {
        let body = format!("message={}&username=u", text);
        let r = handle_request(&mut store, Method::Post, "/", None, body.as_bytes(), now);
        assert_eq!(r.status, 200);
    }

    let both = handle_request(&mut store, Method::Get, "/", Some("after=100&before=300"), b"", 1);
    assert!(both.body.contains("two"));
    assert!(!both.body.contains("one"));
    assert!(!both.body.contains("three"));

    let only_before = handle_request(&mut store, Method::Get, "/", Some("before=200"), b"", 1);
    assert!(only_before.body.contains("one"));
    assert!(!only_before.body.contains("two"));
    assert!(!only_before.body.contains("three"));

    let only_after = handle_request(&mut store, Method::Get, "/", Some("after=200"), b"", 1);
    assert!(only_after.body.contains("three"));
    assert!(!only_after.body.contains("one"));
    assert!(!only_after.body.contains("two"));

    let neither = handle_request(&mut store, Method::Get, "/", None, b"", 1);
    assert!(neither.body.contains("one"));
    assert!(neither.body.contains("two"));
    assert!(neither.body.contains("three"));

    let empty_query = handle_request(&mut store, Method::Get, "/", Some(""), b"", 1);
    assert_eq!(empty_query.body, neither.body);
}

#[test]
fn insert_then_select_by_username_finds_the_row() {
    let mut store = MessageStore::new();
    let nm = NewMessage { username: "alice".to_string(), message: "hi there".to_string() };
    let ts = store.insert_message(&nm, 42).unwrap();
    assert_eq!(ts, 42);
    let rows = store.select_by_username("alice").unwrap();
    assert_eq!(rows.len(), 1);
    assert_eq!(rows[0].username, "alice");
    assert_eq!(rows[0].message, "hi there");
    assert_eq!(rows[0].timestamp, 42);

    let none = store.select_by_username("bob").unwrap();
    assert_eq!(none.len(), 0);
}

#[test]
fn repeated_reads_return_the_same_rows() {
    let mut store = MessageStore::new();
    for (user, now) in [("a", 10), ("b", 20), ("a", 30)] {
        let nm = NewMessage { username: user.to_string(), message: "m".to_string() };
        store.insert_message(&nm, now).unwrap();
    }
    let r1 = store.select_by_username("a").unwrap();
    let r2 = store.select_by_username("a").unwrap();
    assert_eq!(r1.len(), r2.len());
    for (x, y) in r1.iter().zip(r2.iter()) {
        assert_eq!(x.id, y.id);
        assert_eq!(x.username, y.username);
        assert_eq!(x.message, y.message);
        assert_eq!(x.timestamp, y.timestamp);
    }
    let range = TimeRange { before: Some(25), after: None };
    let t1 = store.select_by_time_range(&range).unwrap();
    let t2 = store.select_by_time_range(&range).unwrap();
    assert_eq!(t1.len(), 2);
    assert_eq!(t1.len(), t2.len());
    for (x, y) in t1.iter().zip(t2.iter()) {
        assert_eq!(x.id, y.id);
        assert_eq!(x.timestamp, y.timestamp);
    }
}

#[test]
fn post_to_user_path_is_not_found() {
    let mut store = MessageStore::new();
    let r = handle_request(
        &mut store,
        Method::Post,
        "/user",
        Some("username=alice"),
        b"message=hi",
        11,
    );
    assert_eq!(r.status, 404);
    assert_eq!(r.body, "");
}
