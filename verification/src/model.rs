//! The domain data: stored messages, new-message input, time-range filters,
//! and the error taxonomy of the service.

use vstd::prelude::*;

verus! {

/// Timestamps the service will render as a calendar date. The bound keeps a
/// value safely inside the range the date library can represent (about a
/// quarter of a million years either side of the epoch).
pub open spec fn displayable_time(ts: int) -> bool {
    -8000000000000 <= ts <= 8000000000000
}

/// A stored message, as the persistent store holds it.
#[derive(Debug)]
pub struct Message {
    pub id: i64,
    pub username: String,
    pub message: String,
    pub timestamp: i64,
}

/// Mathematical image of a stored message.
pub ghost struct MessageView {
    pub id: int,
    pub username: Seq<char>,
    pub message: Seq<char>,
    pub timestamp: int,
}

impl View for Message {
    type V = MessageView;

    open spec fn view(&self) -> MessageView {
        MessageView {
            id: self.id as int,
            username: self.username@,
            message: self.message@,
            timestamp: self.timestamp as int,
        }
    }
}

impl Message {
    /// An owned copy, field for field.
    pub fn duplicate(&self) -> (r: Message)
        ensures
            r@ == self@,
    {
        Message {
            id: self.id,
            username: self.username.clone(),
            message: self.message.clone(),
            timestamp: self.timestamp,
        }
    }
}

/// The views of a sequence of messages.
pub open spec fn msg_views(s: Seq<Message>) -> Seq<MessageView> {
    s.map_values(|m: Message| m@)
}

/// A validated posting: both fields are non-empty (an absent or empty
/// username has already been replaced by the default).
#[derive(Debug)]
pub struct NewMessage {
    pub username: String,
    pub message: String,
}

impl NewMessage {
    pub open spec fn valid(&self) -> bool {
        self.username@.len() > 0 && self.message@.len() > 0
    }
}

/// Optional open bounds on message timestamps: strictly less than `before`
/// and strictly greater than `after`, each bound applying only when present.
#[derive(Debug)]
pub struct TimeRange {
    pub before: Option<i64>,
    pub after: Option<i64>,
}

/// The bounds an exec time range denotes.
pub open spec fn range_views(r: TimeRange) -> (Option<int>, Option<int>) {
    (
        match r.before {
            Some(b) => Some(b as int),
            None => None,
        },
        match r.after {
            Some(a) => Some(a as int),
            None => None,
        },
    )
}

/// Whether a timestamp satisfies both present bounds of a range.
pub open spec fn time_matches(bounds: (Option<int>, Option<int>), ts: int) -> bool {
    (match bounds.0 {
        Some(b) => ts < b,
        None => true,
    }) && (match bounds.1 {
        Some(a) => ts > a,
        None => true,
    })
}

/// Rejection of client-supplied input before it reaches the store.
#[derive(Debug)]
pub enum ValidationError {
    MissingField { field: String },
    InvalidParameter { field: String, value: String },
}

/// The text reported for a required field that is absent or empty.
pub open spec fn missing_field_message(field: Seq<char>) -> Seq<char> {
    "Missing field '"@ + field + "'"@
}

/// The text reported for a parameter whose value could not be read.
pub open spec fn invalid_param_message(field: Seq<char>, value: Seq<char>) -> Seq<char> {
    "Error parsing '"@ + field + "': invalid value '"@ + value + "'"@
}

impl ValidationError {
    /// The human-readable text carried to the error response.
    pub open spec fn message_spec(&self) -> Seq<char> {
        match self {
            ValidationError::MissingField { field } => missing_field_message(field@),
            ValidationError::InvalidParameter { field, value } => invalid_param_message(
                field@,
                value@,
            ),
        }
    }

    /// Render the error as its message text.
    pub fn message(&self) -> (r: String)
        ensures
            r@ == self.message_spec(),
    {
        let mut out = String::new();
        match self {
            ValidationError::MissingField { field } => {
                out.append("Missing field '");
                out.append(field.as_str());
                out.append("'");
            },
            ValidationError::InvalidParameter { field, value } => {
                out.append("Error parsing '");
                out.append(field.as_str());
                out.append("': invalid value '");
                out.append(value.as_str());
                out.append("'");
            },
        }
        out
    }
}

/// Failure of the store itself after a connection was in hand: the insert or
/// query could not be completed.
#[derive(Debug)]
pub struct StoreError;

} // verus!
