//! The message store: an append-only table of messages with the three
//! queries the service makes — insert returning the assigned timestamp,
//! select filtered by a time range, and select filtered by username.

use vstd::prelude::*;

use crate::model::{displayable_time, msg_views, range_views, time_matches, Message, MessageView,
    NewMessage, StoreError, TimeRange};

verus! {

/// Mathematical image of the store: the rows in insertion order and the id
/// the next row will take.
pub ghost struct StoreView {
    pub messages: Seq<MessageView>,
    pub next_id: int,
}

/// Well-formedness: ids strictly increase and stay below `next_id`, no row
/// has an empty username or message, every timestamp is displayable.
pub open spec fn store_wf(v: StoreView) -> bool {
    &&& v.next_id >= 1
    &&& forall|i: int|
        0 <= i < v.messages.len() ==> {
            &&& (#[trigger] v.messages[i]).username.len() > 0
            &&& v.messages[i].message.len() > 0
            &&& displayable_time(v.messages[i].timestamp)
            &&& v.messages[i].id < v.next_id
        }
    &&& forall|i: int, j: int|
        0 <= i < j < v.messages.len() ==> (#[trigger] v.messages[i]).id < (
        #[trigger] v.messages[j]).id
}

/// The subsequence of messages whose timestamps satisfy a time range.
pub open spec fn time_matching(msgs: Seq<MessageView>, bounds: (Option<int>, Option<int>)) -> Seq<
    MessageView,
>
    decreases msgs.len(),
{
    if msgs.len() == 0 {
        Seq::empty()
    } else if time_matches(bounds, msgs.last().timestamp) {
        time_matching(msgs.drop_last(), bounds).push(msgs.last())
    } else {
        time_matching(msgs.drop_last(), bounds)
    }
}

/// The subsequence of messages posted under a username.
pub open spec fn user_matching(msgs: Seq<MessageView>, name: Seq<char>) -> Seq<MessageView>
    decreases msgs.len(),
{
    if msgs.len() == 0 {
        Seq::empty()
    } else if msgs.last().username == name {
        user_matching(msgs.drop_last(), name).push(msgs.last())
    } else {
        user_matching(msgs.drop_last(), name)
    }
}

pub struct MessageStore {
    messages: Vec<Message>,
    next_id: i64,
}

impl View for MessageStore {
    type V = StoreView;

    closed spec fn view(&self) -> StoreView {
        StoreView { messages: msg_views(self.messages@), next_id: self.next_id as int }
    }
}

impl MessageStore {
    pub open spec fn wf(&self) -> bool {
        store_wf(self@)
    }

    /// A fresh, empty store.
    pub fn new() -> (r: MessageStore)
        ensures
            r.wf(),
            r@.messages.len() == 0,
            r@.next_id == 1,
    {
        let r = MessageStore { messages: Vec::new(), next_id: 1 };
        proof {
            assert(r@.messages =~= Seq::<MessageView>::empty());
        }
        r
    }

    /// Append one row. The store assigns the id and stamps the row with the
    /// current time `now`; nothing from the posting decides the timestamp.
    /// Fails, changing nothing, only when the id space is exhausted.
    pub fn insert_message(&mut self, msg: &NewMessage, now: i64) -> (r: Result<i64, StoreError>)
        requires
            old(self).wf(),
            msg.valid(),
            displayable_time(now as int),
        ensures
            final(self).wf(),
            r is Ok <==> old(self)@.next_id < i64::MAX,
            r is Ok ==> {
                &&& final(self)@.messages == old(self)@.messages.push(
                    MessageView {
                        id: old(self)@.next_id,
                        username: msg.username@,
                        message: msg.message@,
                        timestamp: now as int,
                    },
                )
                &&& final(self)@.next_id == old(self)@.next_id + 1
                &&& r->Ok_0 == now
            },
            r is Err ==> final(self)@ == old(self)@,
    {
        if self.next_id == i64::MAX {
            return Err(StoreError);
        }
        let row = Message {
            id: self.next_id,
            username: msg.username.clone(),
            message: msg.message.clone(),
            timestamp: now,
        };
        let ghost rv = row@;
        self.messages.push(row);
        self.next_id = self.next_id + 1;
        proof {
            assert(final(self)@.messages =~= old(self)@.messages.push(rv));
        }
        Ok(now)
    }

    /// All rows whose timestamp falls inside the range, in store order.
    pub fn select_by_time_range(&self, range: &TimeRange) -> (r: Result<Vec<Message>, StoreError>)
        requires
            self.wf(),
        ensures
            r is Ok,
            msg_views(r->Ok_0@) == time_matching(self@.messages, range_views(*range)),
            forall|i: int|
                0 <= i < r->Ok_0@.len() ==> displayable_time((#[trigger] r->Ok_0@[i])@.timestamp),
    {
        let n = self.messages.len();
        let mut out: Vec<Message> = Vec::new();
        proof {
            assert(msg_views(out@) =~= Seq::<MessageView>::empty());
            assert(self@.messages.take(0) =~= Seq::<MessageView>::empty());
        }
        let mut i: usize = 0;
        while i < n
            invariant
                0 <= i <= n,
                n == self.messages@.len(),
                self.wf(),
                msg_views(out@) == time_matching(self@.messages.take(i as int), range_views(*range)),
                forall|j: int|
                    0 <= j < out@.len() ==> displayable_time((#[trigger] out@[j])@.timestamp),
            decreases n - i,
        {
            let ghost prefix = self@.messages.take(i as int);
            let ghost cur = self@.messages.take(i + 1);
            proof {
                assert(cur.drop_last() =~= prefix);
                assert(cur.last() == self@.messages[i as int]);
            }
            let m = &self.messages[i];
            let before_ok = match range.before {
                Some(b) => m.timestamp < b,
                None => true,
            };
            let after_ok = match range.after {
                Some(a) => m.timestamp > a,
                None => true,
            };
            if before_ok && after_ok {
                out.push(m.duplicate());
                proof {
                    assert(msg_views(out@) =~= time_matching(prefix, range_views(*range)).push(m@));
                }
            }
            i = i + 1;
        }
        proof {
            assert(self@.messages.take(n as int) =~= self@.messages);
        }
        Ok(out)
    }

    /// All rows posted under exactly this username, in store order.
    pub fn select_by_username(&self, name: &str) -> (r: Result<Vec<Message>, StoreError>)
        requires
            self.wf(),
        ensures
            r is Ok,
            msg_views(r->Ok_0@) == user_matching(self@.messages, name@),
            forall|i: int|
                0 <= i < r->Ok_0@.len() ==> displayable_time((#[trigger] r->Ok_0@[i])@.timestamp),
    {
        let n = self.messages.len();
        let mut out: Vec<Message> = Vec::new();
        proof {
            assert(msg_views(out@) =~= Seq::<MessageView>::empty());
            assert(self@.messages.take(0) =~= Seq::<MessageView>::empty());
        }
        let mut i: usize = 0;
        while i < n
            invariant
                0 <= i <= n,
                n == self.messages@.len(),
                self.wf(),
                msg_views(out@) == user_matching(self@.messages.take(i as int), name@),
                forall|j: int|
                    0 <= j < out@.len() ==> displayable_time((#[trigger] out@[j])@.timestamp),
            decreases n - i,
        {
            let ghost prefix = self@.messages.take(i as int);
            let ghost cur = self@.messages.take(i + 1);
            proof {
                assert(cur.drop_last() =~= prefix);
                assert(cur.last() == self@.messages[i as int]);
            }
            let m = &self.messages[i];
            if crate::text::str_eq(m.username.as_str(), name) {
                out.push(m.duplicate());
                proof {
                    assert(msg_views(out@) =~= user_matching(prefix, name@).push(m@));
                }
            }
            i = i + 1;
        }
        proof {
            assert(self@.messages.take(n as int) =~= self@.messages);
        }
        Ok(out)
    }
}

/// Law: a message inserted under a username is among the rows a subsequent
/// select by that username returns, with the message text intact and the
/// timestamp the store assigned at insert time.
pub proof fn lemma_insert_then_select_by_username(
    v: StoreView,
    username: Seq<char>,
    message: Seq<char>,
    now: int,
)
    ensures
        ({
            let m = MessageView { id: v.next_id, username, message, timestamp: now };
            user_matching(v.messages.push(m), username).contains(m)
        }),
{
    let m = MessageView { id: v.next_id, username, message, timestamp: now };
    let all = v.messages.push(m);
    assert(all.last() == m);
    assert(all.drop_last() =~= v.messages);
    let sel = user_matching(all, username);
    assert(sel.last() == m);
    assert(sel.contains(m)) by {
        assert(sel[sel.len() - 1] == m);
    }
}

/// Law: a message is selected by a time range exactly when it is stored and
/// its timestamp satisfies the range's bounds.
pub proof fn lemma_time_range_exact(
    msgs: Seq<MessageView>,
    bounds: (Option<int>, Option<int>),
    m: MessageView,
)
    ensures
        time_matching(msgs, bounds).contains(m) <==> (msgs.contains(m) && time_matches(
            bounds,
            m.timestamp,
        )),
    decreases msgs.len(),
{
    if msgs.len() > 0 {
        lemma_time_range_exact(msgs.drop_last(), bounds, m);
        let sub = time_matching(msgs.drop_last(), bounds);
        let whole = time_matching(msgs, bounds);
        if whole.contains(m) {
            if time_matches(bounds, msgs.last().timestamp) {
                assert(whole =~= sub.push(msgs.last()));
                if m == msgs.last() {
                    assert(msgs[msgs.len() - 1] == m);
                } else {
                    let i = choose|i: int| 0 <= i < whole.len() && whole[i] == m;
                    assert(sub[i] == m);
                    assert(sub.contains(m));
                    assert(msgs.drop_last().contains(m));
                    let j = choose|j: int|
                        0 <= j < msgs.drop_last().len() && msgs.drop_last()[j] == m;
                    assert(msgs[j] == m);
                }
            } else {
                assert(msgs.drop_last().contains(m));
                let j = choose|j: int| 0 <= j < msgs.drop_last().len() && msgs.drop_last()[j] == m;
                assert(msgs[j] == m);
            }
        }
        if msgs.contains(m) && time_matches(bounds, m.timestamp) {
            let i = choose|i: int| 0 <= i < msgs.len() && msgs[i] == m;
            if i < msgs.len() - 1 {
                assert(msgs.drop_last()[i] == m);
                assert(msgs.drop_last().contains(m));
                assert(sub.contains(m));
                let k = choose|k: int| 0 <= k < sub.len() && sub[k] == m;
                if time_matches(bounds, msgs.last().timestamp) {
                    assert(whole =~= sub.push(msgs.last()));
                    assert(whole[k] == m);
                } else {
                    assert(whole[k] == m);
                }
            } else {
                assert(msgs.last() == m);
                assert(whole.last() == m);
                assert(whole[whole.len() - 1] == m);
            }
        }
    }
}

/// Law: the empty range — no `before`, no `after` — selects every stored
/// message, in order.
pub proof fn lemma_empty_range_selects_all(msgs: Seq<MessageView>)
    ensures
        time_matching(msgs, (None, None)) == msgs,
    decreases msgs.len(),
{
    if msgs.len() == 0 {
        assert(time_matching(msgs, (None, None)) =~= msgs);
    } else {
        lemma_empty_range_selects_all(msgs.drop_last());
        assert(time_matching(msgs, (None, None)) =~= msgs);
    }
}

/// Law: reads are idempotent. A select's result is a function of the stored
/// rows alone (the store itself is untouched, as the queries take `&self`),
/// so two reads with no write between them return the same list.
pub proof fn lemma_repeated_read_same_result(
    v: StoreView,
    name: Seq<char>,
    bounds: (Option<int>, Option<int>),
    user_r1: Seq<MessageView>,
    user_r2: Seq<MessageView>,
    time_r1: Seq<MessageView>,
    time_r2: Seq<MessageView>,
)
    requires
        user_r1 == user_matching(v.messages, name),
        user_r2 == user_matching(v.messages, name),
        time_r1 == time_matching(v.messages, bounds),
        time_r2 == time_matching(v.messages, bounds),
    ensures
        user_r1 == user_r2,
        time_r1 == time_r2,
{
}

} // verus!
