use vstd::prelude::*;
use crate::models::{HistoryView, InlineKeyboardButton, InlineKeyboardMarkup, Message, RedisData, ReplyMsg, Update};
use crate::router::{back_token, close_token, forward_token};
use crate::store::{chat_of, get_chat_id};

verus! {

/// The platform method that sends a new message.
pub open spec fn send_method() -> Seq<char> {
    "sendMessage"@
}

/// The platform method that replaces the text of a message.
pub open spec fn edit_method() -> Seq<char> {
    "editMessageText"@
}

/// The platform method that deletes a message.
pub open spec fn delete_method() -> Seq<char> {
    "deleteMessage"@
}

/// The on-screen message a callback was pressed on, or 0 when there is none.
pub open spec fn anchor_of(u: Update) -> int {
    match u.callback_query {
        Some(c) => match c.message {
            Some(m) => m.message_id as int,
            None => 0,
        },
        None => 0,
    }
}

/// The on-screen message a callback was pressed on (see `anchor_of`).
pub fn get_msg_id(upd: &Update) -> (r: i64)
    ensures
        r == anchor_of(*upd),
{
    if let Some(cbq) = &upd.callback_query {
        if let Some(msg) = &cbq.message {
            return msg.message_id;
        }
    }
    0
}

/// A button with the given label that sends back the given token.
pub open spec fn is_button(b: InlineKeyboardButton, label: Seq<char>, token: Seq<char>) -> bool {
    &&& b.text@ == label
    &&& b.callback_data is Some
    &&& b.callback_data->0@ == token
}

/// The navigation keyboard: one row of step-back, close and step-forward.
pub open spec fn is_navi_keyboard(k: InlineKeyboardMarkup) -> bool {
    &&& k.inline_keyboard@.len() == 1
    &&& k.inline_keyboard@[0]@.len() == 3
    &&& is_button(k.inline_keyboard@[0]@[0], "<<<"@, back_token())
    &&& is_button(k.inline_keyboard@[0]@[1], "close"@, close_token())
    &&& is_button(k.inline_keyboard@[0]@[2], ">>>"@, forward_token())
}

fn button(label: &str, token: &str) -> (r: InlineKeyboardButton)
    ensures
        r.text@ == label@,
        r.callback_data is Some,
        r.callback_data->0@ == token@,
{
    InlineKeyboardButton { text: String::from_str(label), callback_data: Some(String::from_str(token)) }
}

/// The navigation keyboard (see `is_navi_keyboard`).
pub fn get_reply_markup() -> (r: InlineKeyboardMarkup)
    ensures
        is_navi_keyboard(r),
{
    let mut row: Vec<InlineKeyboardButton> = Vec::new();
    row.push(button("<<<", "/back"));
    row.push(button("close", "/close"));
    row.push(button(">>>", "/forward"));
    let mut rows: Vec<Vec<InlineKeyboardButton>> = Vec::new();
    rows.push(row);
    InlineKeyboardMarkup { inline_keyboard: rows }
}

/// An outbound operation with the given method, conversation, text and
/// target message, with the navigation keyboard or with none.
pub open spec fn is_reply(
    m: ReplyMsg,
    method: Seq<char>,
    chat_id: int,
    text: Option<String>,
    message_id: Option<i64>,
    keyboard: bool,
) -> bool {
    &&& m.msg_type@ == method
    &&& m.chat_id == chat_id
    &&& m.text == text
    &&& m.message_id == message_id
    &&& if keyboard {
        m.reply_markup is Some && is_navi_keyboard(m.reply_markup->0)
    } else {
        m.reply_markup is None
    }
}

/// The cursor after a step back: one lower while it is above 1, else
/// unchanged.
pub open spec fn back_cursor(h: HistoryView) -> int {
    if h.entries.len() > 0 && h.cursor > 1 {
        h.cursor - 1
    } else {
        h.cursor
    }
}

/// The cursor after a step forward: one higher while it is below the newest
/// entry, else unchanged.
pub open spec fn forward_cursor(h: HistoryView) -> int {
    if h.entries.len() > 0 && h.cursor < h.entries.len() - 1 {
        h.cursor + 1
    } else {
        h.cursor
    }
}

/// The same history with another cursor.
pub open spec fn with_cursor(h: HistoryView, cursor: int) -> HistoryView {
    HistoryView { entries: h.entries, cursor, chat_id: h.chat_id }
}

/// What the navigator does for one event: the operation to perform on the
/// platform, if any, and the history to persist, if any.
#[derive(Clone, Debug, PartialEq, Eq)]
pub struct NaviPlan {
    pub reply: Option<ReplyMsg>,
    pub persist: Option<RedisData>,
}

fn entry_text(m: &Message) -> (r: Option<String>)
    ensures
        r == m.text,
{
    match &m.text {
        Some(s) => Some(s.clone()),
        None => None,
    }
}

/// Opening the history: with entries, a new message that shows the entry
/// under the cursor with the navigation keyboard; the history is neither
/// changed nor persisted.
pub fn plan_history(data: RedisData, upd: &Update) -> (r: NaviPlan)
    requires
        data@.wf(),
    ensures
        r.persist is None,
        data@.entries.len() == 0 ==> r.reply is None,
        data@.entries.len() > 0 ==> {
            &&& r.reply is Some
            &&& is_reply(r.reply->0, send_method(), chat_of(*upd), data@.entries[data@.cursor].text, None, true)
        },
{
    if data.history.len() == 0 {
        return NaviPlan { reply: None, persist: None };
    }
    let text = entry_text(&data.history[data.view_idx]);
    let reply = ReplyMsg {
        chat_id: get_chat_id(upd),
        text,
        msg_type: String::from_str("sendMessage"),
        message_id: None,
        reply_markup: Some(get_reply_markup()),
    };
    NaviPlan { reply: Some(reply), persist: None }
}

/// A step back: with entries, the cursor moves per `back_cursor` and the
/// history is persisted (also where it did not move); where it moved, the
/// on-screen message is edited to show the new entry.
pub fn plan_back(data: RedisData, upd: &Update) -> (r: NaviPlan)
    requires
        data@.wf(),
    ensures
        data@.entries.len() == 0 ==> r.reply is None && r.persist is None,
        data@.entries.len() > 0 ==> {
            &&& r.persist is Some
            &&& r.persist->0@ == with_cursor(data@, back_cursor(data@))
            &&& r.persist->0@.wf()
        },
        data@.entries.len() > 0 && data@.cursor > 1 ==> {
            &&& r.reply is Some
            &&& is_reply(
                r.reply->0,
                edit_method(),
                chat_of(*upd),
                data@.entries[data@.cursor - 1].text,
                Some(anchor_of(*upd) as i64),
                true,
            )
        },
        data@.cursor <= 1 ==> r.reply is None,
{
    if data.history.len() == 0 {
        return NaviPlan { reply: None, persist: None };
    }
    let mut data = data;
    let mut reply: Option<ReplyMsg> = None;
    if data.view_idx > 1 {
        data.view_idx = data.view_idx - 1;
        let text = entry_text(&data.history[data.view_idx]);
        reply = Some(ReplyMsg {
            chat_id: get_chat_id(upd),
            text,
            msg_type: String::from_str("editMessageText"),
            message_id: Some(get_msg_id(upd)),
            reply_markup: Some(get_reply_markup()),
        });
    }
    NaviPlan { reply, persist: Some(data) }
}

/// A step forward: with entries, the cursor moves per `forward_cursor` and
/// the history is persisted (also where it did not move); where it moved, the
/// on-screen message is edited to show the new entry.
pub fn plan_forward(data: RedisData, upd: &Update) -> (r: NaviPlan)
    requires
        data@.wf(),
    ensures
        data@.entries.len() == 0 ==> r.reply is None && r.persist is None,
        data@.entries.len() > 0 ==> {
            &&& r.persist is Some
            &&& r.persist->0@ == with_cursor(data@, forward_cursor(data@))
            &&& r.persist->0@.wf()
        },
        data@.entries.len() > 0 && data@.cursor < data@.entries.len() - 1 ==> {
            &&& r.reply is Some
            &&& is_reply(
                r.reply->0,
                edit_method(),
                chat_of(*upd),
                data@.entries[data@.cursor + 1].text,
                Some(anchor_of(*upd) as i64),
                true,
            )
        },
        data@.cursor >= data@.entries.len() - 1 ==> r.reply is None,
{
    if data.history.len() == 0 {
        return NaviPlan { reply: None, persist: None };
    }
    let mut data = data;
    let mut reply: Option<ReplyMsg> = None;
    if data.view_idx < data.history.len() - 1 {
        data.view_idx = data.view_idx + 1;
        let text = entry_text(&data.history[data.view_idx]);
        reply = Some(ReplyMsg {
            chat_id: get_chat_id(upd),
            text,
            msg_type: String::from_str("editMessageText"),
            message_id: Some(get_msg_id(upd)),
            reply_markup: Some(get_reply_markup()),
        });
    }
    NaviPlan { reply, persist: Some(data) }
}

/// Closing: the on-screen message is deleted and nothing is persisted, so
/// the conversation's cursor stays as it is, whether or not the message still
/// exists.
pub fn plan_close(upd: &Update) -> (r: NaviPlan)
    ensures
        r.persist is None,
        r.reply is Some,
        is_reply(r.reply->0, delete_method(), chat_of(*upd), None, Some(anchor_of(*upd) as i64), false),
{
    let reply = ReplyMsg {
        chat_id: get_chat_id(upd),
        text: None,
        msg_type: String::from_str("deleteMessage"),
        message_id: Some(get_msg_id(upd)),
        reply_markup: None,
    };
    NaviPlan { reply: Some(reply), persist: None }
}

/// For a history of at least one entry with its cursor in range, a step
/// forward never moves the cursor past the newest entry, and a step back never
/// moves it below 1: it is below 1 afterwards only where it stood at 0 and
/// did not move.
pub proof fn lemma_cursor_bounds(h: HistoryView)
    requires
        h.entries.len() >= 1,
        0 <= h.cursor < h.entries.len(),
    ensures
        0 <= forward_cursor(h) < h.entries.len(),
        0 <= back_cursor(h) < h.entries.len(),
        h.cursor >= 1 ==> back_cursor(h) >= 1,
        back_cursor(h) < 1 ==> back_cursor(h) == h.cursor,
{
}

} // verus!
