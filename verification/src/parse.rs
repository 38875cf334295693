//! Validation of raw request input: the posting body, the time-range query
//! and the username query.

use vstd::prelude::*;
use vstd::string::StringSliceAdditionalSpecFns;

use crate::form::{form_field, form_pairs_of, lookup_field};
use crate::model::{range_views, NewMessage, TimeRange, ValidationError};
use crate::text::{parse_i64, parse_i64_spec};

verus! {

/// What the posting body must yield: a non-empty `message` field, and the
/// `username` field with the default `unknown` standing in for an absent or
/// empty one.
pub open spec fn new_message_spec(pairs: Seq<(Seq<char>, Seq<char>)>) -> Option<
    (Seq<char>, Seq<char>),
> {
    match lookup_field(pairs, "message"@) {
        Some(m) => if m.len() > 0 {
            Some((default_username(pairs), m))
        } else {
            None
        },
        None => None,
    }
}

pub open spec fn default_username(pairs: Seq<(Seq<char>, Seq<char>)>) -> Seq<char> {
    match lookup_field(pairs, "username"@) {
        Some(u) => if u.len() > 0 {
            u
        } else {
            "unknown"@
        },
        None => "unknown"@,
    }
}

/// Parse a form-encoded posting body. `message` is required non-empty;
/// `username` defaults to `unknown`.
pub fn parse_new_message(body: &[u8]) -> (r: Result<NewMessage, ValidationError>)
    ensures
        match new_message_spec(form_pairs_of(body@)) {
            Some(nm) => r is Ok && r->Ok_0.username@ == nm.0 && r->Ok_0.message@ == nm.1
                && r->Ok_0.valid(),
            None => r is Err && (r->Err_0 matches ValidationError::MissingField { field }
                && field@ == "message"@),
        },
{
    proof {
        reveal_strlit("unknown");
    }
    let message = match form_field(body, "message") {
        Some(m) => m,
        None => {
            return Err(ValidationError::MissingField { field: "message".to_owned() });
        },
    };
    if message.as_str().unicode_len() == 0 {
        return Err(ValidationError::MissingField { field: "message".to_owned() });
    }
    let username = match form_field(body, "username") {
        Some(u) => {
            if u.as_str().unicode_len() == 0 {
                "unknown".to_owned()
            } else {
                u
            }
        },
        None => "unknown".to_owned(),
    };
    Ok(NewMessage { username, message })
}

/// What the query's `before` and `after` fields must yield: each, when
/// present, a decimal integer; checked in that order, the first failure
/// reported with the field's name and raw text.
pub open spec fn time_range_spec(pairs: Seq<(Seq<char>, Seq<char>)>) -> Result<
    (Option<int>, Option<int>),
    (Seq<char>, Seq<char>),
> {
    match lookup_field(pairs, "before"@) {
        Some(raw) => match parse_i64_spec(raw) {
            Some(b) => after_bound_spec(pairs, Some(b)),
            None => Err(("before"@, raw)),
        },
        None => after_bound_spec(pairs, None),
    }
}

pub open spec fn after_bound_spec(
    pairs: Seq<(Seq<char>, Seq<char>)>,
    before: Option<int>,
) -> Result<(Option<int>, Option<int>), (Seq<char>, Seq<char>)> {
    match lookup_field(pairs, "after"@) {
        Some(raw) => match parse_i64_spec(raw) {
            Some(a) => Ok((before, Some(a))),
            None => Err(("after"@, raw)),
        },
        None => Ok((before, None)),
    }
}

/// Parse the optional `before` and `after` bounds out of a query string.
pub fn parse_time_range(query: &str) -> (r: Result<TimeRange, ValidationError>)
    ensures
        match time_range_spec(form_pairs_of(query.spec_bytes())) {
            Ok(bounds) => r is Ok && range_views(r->Ok_0) == bounds,
            Err(e) => r is Err && (r->Err_0 matches ValidationError::InvalidParameter {
                field,
                value,
            } && field@ == e.0 && value@ == e.1),
        },
{
    let bytes = query.as_bytes();
    let before: Option<i64> = match form_field(bytes, "before") {
        Some(raw) => match parse_i64(raw.as_str()) {
            Some(b) => Some(b),
            None => {
                return Err(
                    ValidationError::InvalidParameter { field: "before".to_owned(), value: raw },
                );
            },
        },
        None => None,
    };
    let after: Option<i64> = match form_field(bytes, "after") {
        Some(raw) => match parse_i64(raw.as_str()) {
            Some(a) => Some(a),
            None => {
                return Err(
                    ValidationError::InvalidParameter { field: "after".to_owned(), value: raw },
                );
            },
        },
        None => None,
    };
    Ok(TimeRange { before, after })
}

/// What the username query must yield: the `username` field, present in any
/// form.
pub open spec fn username_spec(pairs: Seq<(Seq<char>, Seq<char>)>) -> Option<Seq<char>> {
    lookup_field(pairs, "username"@)
}

/// Parse the required `username` field out of a query string.
pub fn parse_username(query: &str) -> (r: Result<String, ValidationError>)
    ensures
        match username_spec(form_pairs_of(query.spec_bytes())) {
            Some(u) => r is Ok && r->Ok_0@ == u,
            None => r is Err && (r->Err_0 matches ValidationError::MissingField { field }
                && field@ == "username"@),
        },
{
    match form_field(query.as_bytes(), "username") {
        Some(u) => Ok(u),
        None => Err(ValidationError::MissingField { field: "username".to_owned() }),
    }
}

} // verus!
