use vstd::prelude::*;
use crate::models::{HistoryView, Message, RedisData, Update};
use crate::store::empty_view;

verus! {

/// A history after one more message was recorded: the message goes last and
/// the cursor moves to it.
pub open spec fn record_view(h: HistoryView, m: Message) -> HistoryView {
    HistoryView { entries: h.entries.push(m), cursor: h.entries.len() as int, chat_id: h.chat_id }
}

/// A history after the messages were recorded one by one, in order.
pub open spec fn record_all(h: HistoryView, msgs: Seq<Message>) -> HistoryView
    decreases msgs.len(),
{
    if msgs.len() == 0 {
        h
    } else {
        record_view(record_all(h, msgs.drop_last()), msgs.last())
    }
}

/// Appends a message to a history and points the cursor at it.
pub fn record(data: &mut RedisData, msg: Message)
    ensures
        final(data)@ == record_view(old(data)@, msg),
        final(data)@.wf(),
{
    data.history.push(msg);
    data.view_idx = data.history.len() - 1;
}

/// The recorder's handling of one update: the history to persist with the
/// update's message recorded, or nothing where the update holds no message.
pub fn save_update(data: RedisData, upd: Update) -> (r: Option<RedisData>)
    ensures
        match upd.message {
            Some(m) => r is Some && r->0@ == record_view(data@, m),
            None => r is None,
        },
        r is Some ==> r->0@.wf(),
{
    match upd.message {
        Some(msg) => {
            let mut data = data;
            record(&mut data, msg);
            Some(data)
        },
        None => None,
    }
}

/// Recording messages one at a time into an empty history leaves, after each
/// of them, exactly the messages so far, with the cursor on the newest.
pub proof fn lemma_record_sequence(chat_id: int, msgs: Seq<Message>)
    ensures
        forall|k: int| 1 <= k <= msgs.len() ==> {
            let h = #[trigger] record_all(empty_view(chat_id), msgs.take(k));
            &&& h.entries == msgs.take(k)
            &&& h.entries.len() == k
            &&& h.cursor == k - 1
        },
{
    assert forall|k: int| 1 <= k <= msgs.len() implies {
        let h = #[trigger] record_all(empty_view(chat_id), msgs.take(k));
        &&& h.entries == msgs.take(k)
        &&& h.entries.len() == k
        &&& h.cursor == k - 1
    } by {
        lemma_record_prefix(chat_id, msgs.take(k));
    }
}

proof fn lemma_record_prefix(chat_id: int, msgs: Seq<Message>)
    ensures
        record_all(empty_view(chat_id), msgs).entries == msgs,
        record_all(empty_view(chat_id), msgs).cursor == msgs.len() - 1 || msgs.len() == 0,
        record_all(empty_view(chat_id), msgs).chat_id == chat_id,
    decreases msgs.len(),
{
    if msgs.len() > 0 {
        lemma_record_prefix(chat_id, msgs.drop_last());
        assert(msgs.drop_last().push(msgs.last()) =~= msgs);
    } else {
        assert(msgs =~= Seq::empty());
    }
}

} // verus!
