//! Wire responses: status, content type and body, and the builders that turn
//! each domain result into one.

use vstd::prelude::*;

use crate::model::{displayable_time, msg_views, Message, StoreError};
use crate::render::{page_spec, render_page};
use crate::text::{i64_dec_str, i64_to_string};

verus! {

#[derive(Clone, Copy, PartialEq, Eq, Structural, Debug)]
pub enum ContentType {
    Json,
    Html,
}

/// A response as it goes on the wire.
pub struct HttpResponse {
    pub status: u16,
    pub content_type: Option<ContentType>,
    pub body: String,
}

/// Mathematical image of a response.
pub ghost struct ResponseView {
    pub status: int,
    pub content_type: Option<ContentType>,
    pub body: Seq<char>,
}

impl View for HttpResponse {
    type V = ResponseView;

    open spec fn view(&self) -> ResponseView {
        ResponseView {
            status: self.status as int,
            content_type: self.content_type,
            body: self.body@,
        }
    }
}

/// The JSON string literal (quoted and escaped) for a string's characters.
pub uninterp spec fn json_string_of(s: Seq<char>) -> Seq<char>;

/// Relies on `serde_json::to_string` applied to a string slice: it yields
/// the JSON string literal, quoted and escaped, a function of the characters
/// alone; serializing a string value cannot fail.
#[verifier::external_body]
fn json_quote(s: &str) -> (r: String)
    ensures
        r@ == json_string_of(s@),
{
    serde_json::to_string(s).unwrap()
}

/// The JSON success body for an insert.
pub open spec fn timestamp_body_spec(ts: int) -> Seq<char> {
    "{\"timestamp\":"@ + i64_dec_str(ts) + "}"@
}

/// The JSON error body carrying a message.
pub open spec fn error_body_spec(msg: Seq<char>) -> Seq<char> {
    "{\"error\":"@ + json_string_of(msg) + "}"@
}

/// The response to a failed request: a JSON body naming the error.
pub fn error_response(error_message: &str) -> (r: HttpResponse)
    ensures
        r@.status == 400,
        r@.content_type == Some(ContentType::Json),
        r@.body == error_body_spec(error_message@),
{
    let mut body = String::new();
    body.append("{\"error\":");
    let quoted = json_quote(error_message);
    body.append(quoted.as_str());
    body.append("}");
    proof {
        assert(body@ =~= error_body_spec(error_message@));
    }
    HttpResponse { status: 400, content_type: Some(ContentType::Json), body }
}

/// The response to a posting: the store-assigned timestamp as JSON, or the
/// store's failure as an error body.
pub fn post_response(result: Result<i64, StoreError>) -> (r: HttpResponse)
    ensures
        result is Ok ==> r@ == (ResponseView {
            status: 200,
            content_type: Some(ContentType::Json),
            body: timestamp_body_spec(result->Ok_0 as int),
        }),
        result is Err ==> r@ == (ResponseView {
            status: 500,
            content_type: Some(ContentType::Json),
            body: error_body_spec("service error"@),
        }),
{
    match result {
        Ok(timestamp) => {
            let mut body = String::new();
            body.append("{\"timestamp\":");
            let digits = i64_to_string(timestamp);
            body.append(digits.as_str());
            body.append("}");
            proof {
                assert(body@ =~= timestamp_body_spec(timestamp as int));
            }
            HttpResponse { status: 200, content_type: Some(ContentType::Json), body }
        },
        Err(_) => {
            let r = error_response("service error");
            HttpResponse { status: 500, content_type: r.content_type, body: r.body }
        },
    }
}

/// The response to a list query: the rendered page, or a bare server failure
/// when the store could not answer — found-nothing and failed stay distinct.
pub fn get_response(messages: Result<Vec<Message>, StoreError>) -> (r: HttpResponse)
    requires
        messages is Ok ==> forall|i: int|
            0 <= i < messages->Ok_0@.len() ==> displayable_time(
                (#[trigger] messages->Ok_0@[i])@.timestamp,
            ),
    ensures
        messages is Ok ==> r@ == (ResponseView {
            status: 200,
            content_type: Some(ContentType::Html),
            body: page_spec(msg_views(messages->Ok_0@)),
        }),
        messages is Err ==> r@ == (ResponseView {
            status: 500,
            content_type: None,
            body: Seq::<char>::empty(),
        }),
{
    match messages {
        Ok(list) => {
            let body = render_page(&list);
            HttpResponse { status: 200, content_type: Some(ContentType::Html), body }
        },
        Err(_) => {
            let body = String::new();
            HttpResponse { status: 500, content_type: None, body }
        },
    }
}

/// The bare not-found response: no body at all.
pub fn not_found_response() -> (r: HttpResponse)
    ensures
        r@ == (ResponseView { status: 404, content_type: None, body: Seq::<char>::empty() }),
{
    HttpResponse { status: 404, content_type: None, body: String::new() }
}

} // verus!
