use tgbot::models::{CallbackQuery, Chat, Message, RedisData, Update};
use tgbot::navigator::{get_msg_id, get_reply_markup, plan_back, plan_close, plan_forward, plan_history};
use tgbot::recorder::{record, save_update};
use tgbot::store::{get_chat_id, history_or_default, store_key, STORE_TTL_SECS};

fn msg(id: i64, chat: i64, text: &str) -> Message {
    Message { message_id: id, text: Some(text.to_string()), chat: Chat { id: chat } }
}

fn open_update(chat: i64) -> Update {
    Update { update_id: 1, message: Some(msg(500, chat, "/history")), callback_query: None, update_type: None }
}

fn press(chat: i64, on_screen: i64, data: &str) -> Update {
    Update {
        update_id: 2,
        message: None,
        callback_query: Some(CallbackQuery {
            id: "q".to_string(),
            message: Some(msg(on_screen, chat, "shown")),
            inline_message_id: None,
            data: Some(data.to_string()),
        }),
        update_type: None,
    }
}

fn history_of(chat: i64, texts: &[&str]) -> RedisData {
    let mut data = RedisData::empty(chat);
    for (i, t) in texts.iter().enumerate() {
        record(&mut data, msg(i as i64 + 1, chat, t));
    }
    data
}

#[test]
fn recording_moves_cursor_to_newest() {
    let mut data = RedisData::empty(3);
    for k in 1..=5usize {
        record(&mut data, msg(k as i64, 3, "m"));
        assert_eq!(data.history.len(), k);
        assert_eq!(data.view_idx, k - 1);
    }
    assert_eq!(data.chat_id, 3);
}

#[test]
fn save_update_appends_the_message() {
    let data = history_of(8, &["a"]);
    let upd = Update { update_id: 4, message: Some(msg(9, 8, "b")), callback_query: None, update_type: None };
    let saved = save_update(data, upd).unwrap();
    assert_eq!(saved.history.len(), 2);
    assert_eq!(saved.history[1], msg(9, 8, "b"));
    assert_eq!(saved.view_idx, 1);
}

#[test]
fn save_update_without_message_persists_nothing() {
    let upd = press(8, 1, "/back");
    assert_eq!(save_update(history_of(8, &["a"]), upd), None);
}

#[test]
fn navigation_scenario() {
    let chat = 42;
    let data = history_of(chat, &["one", "two", "three"]);
    assert_eq!(data.view_idx, 2);

    let open = plan_history(data.clone(), &open_update(chat));
    let shown = open.reply.unwrap();
    assert_eq!(shown.msg_type, "sendMessage");
    assert_eq!(shown.text, Some("three".to_string()));
    assert_eq!(shown.chat_id, chat);
    assert_eq!(shown.message_id, None);
    assert_eq!(shown.reply_markup, Some(get_reply_markup()));
    assert_eq!(open.persist, None);

    let back = plan_back(data, &press(chat, 900, "/back"));
    let edit = back.reply.unwrap();
    assert_eq!(edit.msg_type, "editMessageText");
    assert_eq!(edit.text, Some("two".to_string()));
    assert_eq!(edit.message_id, Some(900));
    let data = back.persist.unwrap();
    assert_eq!(data.view_idx, 1);

    let again = plan_back(data, &press(chat, 900, "/back"));
    assert_eq!(again.reply, None);
    let data = again.persist.unwrap();
    assert_eq!(data.view_idx, 1);

    let fwd = plan_forward(data, &press(chat, 900, "/forward"));
    assert_eq!(fwd.reply.unwrap().text, Some("three".to_string()));
    let data = fwd.persist.unwrap();
    assert_eq!(data.view_idx, 2);

    let close = plan_close(&press(chat, 900, "/close"));
    let delete = close.reply.unwrap();
    assert_eq!(delete.msg_type, "deleteMessage");
    assert_eq!(delete.message_id, Some(900));
    assert_eq!(delete.chat_id, chat);
    assert_eq!(delete.text, None);
    assert_eq!(delete.reply_markup, None);
    assert_eq!(close.persist, None);
    assert_eq!(data.view_idx, 2);
}

#[test]
fn step_back_never_reaches_index_zero() {
    let mut data = history_of(1, &["a", "b", "c", "d"]);
    for _ in 0..5 {
        data = plan_back(data, &press(1, 3, "/back")).persist.unwrap();
        assert!(data.view_idx >= 1);
    }
    assert_eq!(data.view_idx, 1);
}

#[test]
fn step_back_from_zero_stays_at_zero() {
    let mut data = history_of(1, &["a", "b"]);
    data.view_idx = 0;
    let plan = plan_back(data, &press(1, 3, "/back"));
    assert_eq!(plan.reply, None);
    assert_eq!(plan.persist.unwrap().view_idx, 0);
}

#[test]
fn step_forward_stops_at_newest() {
    let mut data = history_of(1, &["a", "b", "c"]);
    data.view_idx = 0;
    for _ in 0..5 {
        data = plan_forward(data, &press(1, 3, "/forward")).persist.unwrap();
        assert!(data.view_idx < 3);
    }
    assert_eq!(data.view_idx, 2);
    let plan = plan_forward(data, &press(1, 3, "/forward"));
    assert_eq!(plan.reply, None);
}

#[test]
fn empty_history_renders_and_persists_nothing() {
    let upd = press(6, 3, "/back");
    for plan in [
        plan_history(RedisData::empty(6), &open_update(6)),
        plan_back(RedisData::empty(6), &upd),
        plan_forward(RedisData::empty(6), &upd),
    ] {
        assert_eq!(plan.reply, None);
        assert_eq!(plan.persist, None);
    }
}

#[test]
fn entry_without_text_is_shown_without_text() {
    let mut data = history_of(1, &["a", "b", "c"]);
    data.history[1].text = None;
    let plan = plan_back(data, &press(1, 3, "/back"));
    assert_eq!(plan.reply.unwrap().text, None);
}

#[test]
fn keyboard_has_three_buttons() {
    let k = get_reply_markup();
    assert_eq!(k.inline_keyboard.len(), 1);
    let row = &k.inline_keyboard[0];
    let labels: Vec<&str> = row.iter().map(|b| b.text.as_str()).collect();
    let tokens: Vec<Option<&str>> = row.iter().map(|b| b.callback_data.as_deref()).collect();
    assert_eq!(labels, vec!["<<<", "close", ">>>"]);
    assert_eq!(tokens, vec![Some("/back"), Some("/close"), Some("/forward")]);
}

#[test]
fn chat_and_message_ids_of_updates() {
    assert_eq!(get_chat_id(&open_update(-100123)), -100123);
    assert_eq!(get_chat_id(&press(77, 5, "/back")), 77);
    let bare = Update { update_id: 1, message: None, callback_query: None, update_type: None };
    assert_eq!(get_chat_id(&bare), 0);
    assert_eq!(get_msg_id(&press(77, 5, "/back")), 5);
    assert_eq!(get_msg_id(&open_update(77)), 0);
}

#[test]
fn store_keys_are_decimal() {
    assert_eq!(store_key(0), "0");
    assert_eq!(store_key(42), "42");
    assert_eq!(store_key(-100123), "-100123");
    assert_eq!(store_key(i64::MAX), "9223372036854775807");
    assert_eq!(store_key(i64::MIN), "-9223372036854775808");
    assert_eq!(STORE_TTL_SECS, 86400);
}

#[test]
fn fetch_round_trip_keeps_history() {
    let data = history_of(12, &["x", "y"]);
    let back = history_or_default(Some(data.clone()), 12);
    assert_eq!(back, data);
}

#[test]
fn unreadable_fetch_is_empty_history() {
    assert_eq!(history_or_default(None, 12), RedisData::empty(12));
    let mut broken = history_of(12, &["x", "y"]);
    broken.view_idx = 2;
    assert_eq!(history_or_default(Some(broken), 12), RedisData::empty(12));
}
