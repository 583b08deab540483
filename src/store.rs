use vstd::prelude::*;
use crate::decimal::{decimal, decimal_string, lemma_decimal_injective};
use crate::models::{HistoryView, RedisData, Update};

verus! {

/// Seconds a persisted history stays fresh; every write starts the window
/// again.
pub const STORE_TTL_SECS: u64 = 24 * 60 * 60;

/// The conversation an update belongs to: that of its message, else that of
/// the message its callback was pressed on, else 0.
pub open spec fn chat_of(u: Update) -> int {
    match u.message {
        Some(m) => m.chat.id as int,
        None => match u.callback_query {
            Some(c) => match c.message {
                Some(m) => m.chat.id as int,
                None => 0,
            },
            None => 0,
        },
    }
}

/// The conversation an update belongs to (see `chat_of`).
pub fn get_chat_id(upd: &Update) -> (r: i64)
    ensures
        r == chat_of(*upd),
{
    if let Some(msg) = &upd.message {
        return msg.chat.id;
    }
    if let Some(cbq) = &upd.callback_query {
        if let Some(msg) = &cbq.message {
            return msg.chat.id;
        }
    }
    0
}

/// The store key of a conversation: the decimal text of its identifier.
pub fn store_key(chat_id: i64) -> (r: String)
    ensures
        r@ == decimal(chat_id as int),
{
    decimal_string(chat_id)
}

/// The history of a conversation that nothing was recorded for yet.
pub open spec fn empty_view(chat_id: int) -> HistoryView {
    HistoryView { entries: Seq::empty(), cursor: 0, chat_id }
}

/// What a fetch yields from what the store handed back: a readable,
/// well-formed record as it is; in every other case (no record, a store
/// error, a record that does not decode or whose cursor is out of range) the
/// empty history of the conversation.
pub open spec fn fetched_view(fetched: Option<RedisData>, chat_id: int) -> HistoryView {
    match fetched {
        Some(h) => if h@.wf() { h@ } else { empty_view(chat_id) },
        None => empty_view(chat_id),
    }
}

/// Folds the outcome of a store read into a history (see `fetched_view`);
/// the store's outcome is `None` where it failed or held nothing readable.
pub fn history_or_default(fetched: Option<RedisData>, chat_id: i64) -> (r: RedisData)
    ensures
        r@ == fetched_view(fetched, chat_id as int),
        r@.wf(),
{
    match fetched {
        Some(h) => if h.history.len() == 0 || h.view_idx < h.history.len() {
            h
        } else {
            RedisData::empty(chat_id)
        },
        None => RedisData::empty(chat_id),
    }
}

/// The store after a history was written: the record under its
/// conversation's key is replaced, every other key keeps its record.
pub open spec fn persist_into(store: Map<Seq<char>, RedisData>, h: RedisData) -> Map<Seq<char>, RedisData> {
    store.insert(decimal(h.chat_id as int), h)
}

/// What fetching a conversation's history from the store yields.
pub open spec fn fetch_from(store: Map<Seq<char>, RedisData>, chat_id: int) -> HistoryView {
    let key = decimal(chat_id);
    if store.contains_key(key) {
        fetched_view(Some(store[key]), chat_id)
    } else {
        fetched_view(None, chat_id)
    }
}

/// Persisting a well-formed history and fetching its conversation at once
/// gives back the same entries, cursor and conversation; the fetch of any
/// other conversation is the same as before the write.
pub proof fn lemma_store_round_trip(store: Map<Seq<char>, RedisData>, h: RedisData, other: i64)
    requires
        h@.wf(),
    ensures
        fetch_from(persist_into(store, h), h.chat_id as int) == h@,
        other != h.chat_id ==> fetch_from(persist_into(store, h), other as int) == fetch_from(
            store,
            other as int,
        ),
{
    lemma_store_key_distinct(other, h.chat_id);
}

/// Conversations never share a store key: equal keys mean the same
/// conversation.
pub proof fn lemma_store_key_distinct(a: i64, b: i64)
    ensures
        decimal(a as int) == decimal(b as int) ==> a == b,
{
    if decimal(a as int) == decimal(b as int) {
        lemma_decimal_injective(a as int, b as int);
    }
}

} // verus!
