//! HTML rendering of a message list: one line per message with an escaped
//! username and text and a human-readable timestamp, or a heading when there
//! is nothing to show.

use vstd::prelude::*;

use crate::model::{displayable_time, msg_views, Message, MessageView};
use crate::text::chars_to_string;

verus! {

/// The calendar rendering of an epoch-seconds timestamp, as the date library
/// displays it.
pub uninterp spec fn date_display_of(ts: int) -> Seq<char>;

/// Relies on `chrono::DateTime::from_timestamp` and the display of
/// `chrono::NaiveDateTime`: the rendering is a function of the epoch seconds
/// alone, and a displayable timestamp is within the library's range.
#[verifier::external_body]
fn chrono_date_string(ts: i64) -> (r: String)
    requires
        displayable_time(ts as int),
    ensures
        r@ == date_display_of(ts as int),
{
    let dt = chrono::DateTime::from_timestamp(ts, 0).unwrap();
    dt.naive_utc().to_string()
}

/// Render an epoch-seconds timestamp as a date-time string.
pub fn format_date(timestamp: i64) -> (r: String)
    requires
        displayable_time(timestamp as int),
    ensures
        r@ == date_display_of(timestamp as int),
{
    chrono_date_string(timestamp)
}

/// How one character appears inside HTML text.
pub open spec fn escape_char(c: char) -> Seq<char> {
    if c == '&' {
        seq!['&', 'a', 'm', 'p', ';']
    } else if c == '<' {
        seq!['&', 'l', 't', ';']
    } else if c == '>' {
        seq!['&', 'g', 't', ';']
    } else if c == '"' {
        seq!['&', 'q', 'u', 'o', 't', ';']
    } else {
        seq![c]
    }
}

/// A string with every character escaped for HTML text.
pub open spec fn html_escaped(s: Seq<char>) -> Seq<char>
    decreases s.len(),
{
    if s.len() == 0 {
        Seq::empty()
    } else {
        html_escaped(s.drop_last()) + escape_char(s.last())
    }
}

/// Escape a string for inclusion in HTML text.
pub fn html_escape(s: &str) -> (r: String)
    ensures
        r@ == html_escaped(s@),
{
    let n = s.unicode_len();
    let mut out: Vec<char> = Vec::new();
    proof {
        assert(s@.take(0) =~= Seq::<char>::empty());
        assert(out@ =~= html_escaped(s@.take(0)));
    }
    let mut i: usize = 0;
    while i < n
        invariant
            0 <= i <= n,
            n == s@.len(),
            out@ == html_escaped(s@.take(i as int)),
        decreases n - i,
    {
        let ghost prefix = s@.take(i as int);
        let ghost cur = s@.take(i + 1);
        proof {
            assert(cur.drop_last() =~= prefix);
            assert(cur.last() == s@[i as int]);
        }
        let c = s.get_char(i);
        if c == '&' {
            out.push('&');
            out.push('a');
            out.push('m');
            out.push('p');
            out.push(';');
        } else if c == '<' {
            out.push('&');
            out.push('l');
            out.push('t');
            out.push(';');
        } else if c == '>' {
            out.push('&');
            out.push('g');
            out.push('t');
            out.push(';');
        } else if c == '"' {
            out.push('&');
            out.push('q');
            out.push('u');
            out.push('o');
            out.push('t');
            out.push(';');
        } else {
            out.push(c);
        }
        proof {
            assert(out@ =~= html_escaped(prefix) + escape_char(c));
        }
        i = i + 1;
    }
    proof {
        assert(s@.take(n as int) =~= s@);
    }
    chars_to_string(out)
}

/// The fixed page frame up to the body's content.
pub open spec fn page_head() -> Seq<char> {
    "<head><title>Message Service</title><style>body { font-family: monospace }</style></head><body>"@
}

/// One rendered message line.
pub open spec fn line_spec(m: MessageView) -> Seq<char> {
    "<li>"@ + html_escaped(m.username) + " ("@ + date_display_of(m.timestamp) + "): "@
        + html_escaped(m.message) + "</li>"@
}

/// The rendered lines of a message list, in order.
pub open spec fn lines_spec(msgs: Seq<MessageView>) -> Seq<char>
    decreases msgs.len(),
{
    if msgs.len() == 0 {
        Seq::empty()
    } else {
        lines_spec(msgs.drop_last()) + line_spec(msgs.last())
    }
}

/// The whole page: the frame, then the message list or the empty heading.
pub open spec fn page_spec(msgs: Seq<MessageView>) -> Seq<char> {
    page_head() + (if msgs.len() == 0 {
        "<h1>No messages found</h1>"@
    } else {
        "<ul>"@ + lines_spec(msgs) + "</ul>"@
    }) + "</body>"@
}

/// Render a message list as an HTML page, one line per message in the form
/// `username (date): text`, or a "No messages found" heading for an empty
/// list.
pub fn render_page(messages: &Vec<Message>) -> (r: String)
    requires
        forall|i: int|
            0 <= i < messages@.len() ==> displayable_time(
                (#[trigger] messages@[i])@.timestamp,
            ),
    ensures
        r@ == page_spec(msg_views(messages@)),
{
    let ghost views = msg_views(messages@);
    let mut out = String::new();
    out.append(
        "<head><title>Message Service</title><style>body { font-family: monospace }</style></head><body>",
    );
    let n = messages.len();
    if n == 0 {
        out.append("<h1>No messages found</h1>");
    } else {
        out.append("<ul>");
        proof {
            assert(views.take(0) =~= Seq::<MessageView>::empty());
        }
        let mut i: usize = 0;
        while i < n
            invariant
                0 <= i <= n,
                n == messages@.len(),
                n > 0,
                views == msg_views(messages@),
                forall|k: int|
                    0 <= k < messages@.len() ==> displayable_time(
                        (#[trigger] messages@[k])@.timestamp,
                    ),
                out@ == page_head() + "<ul>"@ + lines_spec(views.take(i as int)),
            decreases n - i,
        {
            let ghost prefix = views.take(i as int);
            let ghost cur = views.take(i + 1);
            proof {
                assert(cur.drop_last() =~= prefix);
                assert(cur.last() == views[i as int]);
            }
            let m = &messages[i];
            out.append("<li>");
            let user = html_escape(m.username.as_str());
            out.append(user.as_str());
            out.append(" (");
            let date = format_date(m.timestamp);
            out.append(date.as_str());
            out.append("): ");
            let text = html_escape(m.message.as_str());
            out.append(text.as_str());
            out.append("</li>");
            proof {
                assert(out@ =~= page_head() + "<ul>"@ + (lines_spec(prefix) + line_spec(
                    views[i as int],
                )));
            }
            i = i + 1;
        }
        proof {
            assert(views.take(n as int) =~= views);
        }
        out.append("</ul>");
    }
    out.append("</body>");
    proof {
        assert(out@ =~= page_spec(views));
    }
    out
}

} // verus!
