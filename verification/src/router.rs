//! The dispatcher: maps (method, path) to one of the three operations,
//! drives parser, store and response builder for each request, and answers
//! anything else with a bare not-found.

use vstd::prelude::*;
use vstd::string::StringSliceAdditionalSpecFns;

use crate::form::form_pairs_of;
use crate::model::{displayable_time, invalid_param_message, missing_field_message, MessageView,
    TimeRange};
use crate::parse::{new_message_spec, parse_new_message, parse_time_range, parse_username,
    time_range_spec, username_spec};
use crate::render::page_spec;
use crate::response::{error_body_spec, error_response, get_response, not_found_response,
    post_response, timestamp_body_spec, ContentType, HttpResponse, ResponseView};
use crate::store::{time_matching, user_matching, MessageStore, StoreView};

verus! {

#[derive(Clone, Copy, PartialEq, Eq, Structural, Debug)]
pub enum Method {
    Get,
    Post,
    Other,
}

/// The response rejecting bad client input.
pub open spec fn error_view(msg: Seq<char>) -> ResponseView {
    ResponseView {
        status: 400,
        content_type: Some(ContentType::Json),
        body: error_body_spec(msg),
    }
}

/// The bare not-found response.
pub open spec fn not_found_view() -> ResponseView {
    ResponseView { status: 404, content_type: None, body: Seq::empty() }
}

/// What a posting does: parse the body, append the row stamped `now`, answer
/// with the timestamp; reject a bad body; report a full store.
pub open spec fn post_spec(v: StoreView, body: Seq<u8>, now: int) -> (StoreView, ResponseView) {
    match new_message_spec(form_pairs_of(body)) {
        Some(nm) => if v.next_id < i64::MAX {
            (
                StoreView {
                    messages: v.messages.push(
                        MessageView { id: v.next_id, username: nm.0, message: nm.1, timestamp: now },
                    ),
                    next_id: v.next_id + 1,
                },
                ResponseView {
                    status: 200,
                    content_type: Some(ContentType::Json),
                    body: timestamp_body_spec(now),
                },
            )
        } else {
            (
                v,
                ResponseView {
                    status: 500,
                    content_type: Some(ContentType::Json),
                    body: error_body_spec("service error"@),
                },
            )
        },
        None => (v, error_view(missing_field_message("message"@))),
    }
}

/// What the list-by-time query answers: the page of rows inside the range
/// (no query at all means no bounds), or the rejection naming the bad bound.
pub open spec fn get_root_spec(v: StoreView, query: Option<Seq<u8>>) -> ResponseView {
    let parsed = match query {
        Some(qb) => time_range_spec(form_pairs_of(qb)),
        None => Ok((None, None)),
    };
    match parsed {
        Ok(bounds) => ResponseView {
            status: 200,
            content_type: Some(ContentType::Html),
            body: page_spec(time_matching(v.messages, bounds)),
        },
        Err(e) => error_view(invalid_param_message(e.0, e.1)),
    }
}

/// What the list-by-user query answers: not-found without a query string,
/// the user's page when `username` is given, the rejection otherwise.
pub open spec fn get_user_spec(v: StoreView, query: Option<Seq<u8>>) -> ResponseView {
    match query {
        Some(qb) => match username_spec(form_pairs_of(qb)) {
            Some(u) => ResponseView {
                status: 200,
                content_type: Some(ContentType::Html),
                body: page_spec(user_matching(v.messages, u)),
            },
            None => error_view(missing_field_message("username"@)),
        },
        None => not_found_view(),
    }
}

/// The whole request cycle: the store after the request and the response.
pub open spec fn handle_spec(
    v: StoreView,
    method: Method,
    path: Seq<char>,
    query: Option<Seq<u8>>,
    body: Seq<u8>,
    now: int,
) -> (StoreView, ResponseView) {
    if method == Method::Post && path == "/"@ {
        post_spec(v, body, now)
    } else if method == Method::Get && path == "/"@ {
        (v, get_root_spec(v, query))
    } else if method == Method::Get && path == "/user"@ {
        (v, get_user_spec(v, query))
    } else {
        (v, not_found_view())
    }
}

/// The view the query string takes in specifications.
pub open spec fn query_bytes(query: Option<&str>) -> Option<Seq<u8>> {
    match query {
        Some(q) => Some(q.spec_bytes()),
        None => None,
    }
}

/// Dispatch one request and produce exactly one response. Every path either
/// leaves the store alone or — for a valid posting — appends one row.
pub fn handle_request(
    store: &mut MessageStore,
    method: Method,
    path: &str,
    query: Option<&str>,
    body: &[u8],
    now: i64,
) -> (r: HttpResponse)
    requires
        old(store).wf(),
        displayable_time(now as int),
    ensures
        final(store).wf(),
        final(store)@ == handle_spec(old(store)@, method, path@, query_bytes(query), body@, now as int).0,
        r@ == handle_spec(old(store)@, method, path@, query_bytes(query), body@, now as int).1,
{
    let is_root = crate::text::str_eq(path, "/");
    let is_user = crate::text::str_eq(path, "/user");
    if method == Method::Post && is_root {
        match parse_new_message(body) {
            Ok(new_message) => {
                let inserted = store.insert_message(&new_message, now);
                post_response(inserted)
            },
            Err(e) => {
                let msg = e.message();
                error_response(msg.as_str())
            },
        }
    } else if method == Method::Get && is_root {
        let range = match query {
            Some(q) => match parse_time_range(q) {
                Ok(tr) => tr,
                Err(e) => {
                    let msg = e.message();
                    return error_response(msg.as_str());
                },
            },
            None => TimeRange { before: None, after: None },
        };
        let rows = store.select_by_time_range(&range);
        get_response(rows)
    } else if method == Method::Get && is_user {
        match query {
            Some(q) => match parse_username(q) {
                Ok(name) => {
                    let rows = store.select_by_username(name.as_str());
                    get_response(rows)
                },
                Err(e) => {
                    let msg = e.message();
                    error_response(msg.as_str())
                },
            },
            None => not_found_response(),
        }
    } else {
        not_found_response()
    }
}

} // verus!
