use vstd::prelude::*;

verus! {

/// A bot account as the platform describes it.
#[derive(Clone, Debug)]
pub struct UserGetMe {
    pub id: i64,
    pub is_bot: bool,
    pub first_name: String,
    pub last_name: Option<String>,
    pub username: Option<String>,
    pub language_code: Option<String>,
    pub can_join_groups: bool,
    pub can_read_all_group_messages: bool,
    pub supports_inline_queries: bool,
}

/// A conversation, known by its identifier.
#[derive(Clone, Copy, Debug, PartialEq, Eq)]
pub struct Chat {
    pub id: i64,
}

/// A chat message: one entry of a conversation's history.
#[derive(Clone, Debug, PartialEq, Eq)]
pub struct Message {
    pub message_id: i64,
    pub text: Option<String>,
    pub chat: Chat,
}

/// A press on a button of an inline keyboard.
#[derive(Clone, Debug, PartialEq, Eq)]
pub struct CallbackQuery {
    pub id: String,
    pub message: Option<Message>,
    pub inline_message_id: Option<String>,
    pub data: Option<String>,
}

/// What a navigation update asks for.
#[derive(Clone, Copy, Debug, PartialEq, Eq)]
pub enum NaviType {
    History,
    Back,
    Forward,
    Close,
}

/// The kind an update is classified as.
#[derive(Clone, Copy, Debug, PartialEq, Eq)]
pub enum UpdateType {
    Save,
    Navi(NaviType),
}

/// An inbound event of the platform: a new message or a button press.
#[derive(Clone, Debug, PartialEq, Eq)]
pub struct Update {
    pub update_id: i64,
    pub message: Option<Message>,
    pub callback_query: Option<CallbackQuery>,
    pub update_type: Option<UpdateType>,
}

/// A conversation's persisted history and its read cursor.
#[derive(Clone, Debug, PartialEq, Eq)]
pub struct RedisData {
    pub history: Vec<Message>,
    pub view_idx: usize,
    pub chat_id: i64,
}

/// The mathematical value of a conversation history.
pub ghost struct HistoryView {
    pub entries: Seq<Message>,
    pub cursor: int,
    pub chat_id: int,
}

impl View for RedisData {
    type V = HistoryView;

    open spec fn view(&self) -> HistoryView {
        HistoryView { entries: self.history@, cursor: self.view_idx as int, chat_id: self.chat_id as int }
    }
}

impl HistoryView {
    /// The cursor points at an entry whenever there is one.
    pub open spec fn wf(self) -> bool {
        self.entries.len() > 0 ==> 0 <= self.cursor < self.entries.len()
    }
}

impl RedisData {
    /// The history that a conversation has before anything was recorded.
    pub fn empty(chat_id: i64) -> (r: RedisData)
        ensures
            r@.entries == Seq::<Message>::empty(),
            r@.cursor == 0,
            r@.chat_id == chat_id,
            r@.wf(),
    {
        let r = RedisData { history: Vec::new(), view_idx: 0, chat_id };
        assert(r@.entries =~= Seq::<Message>::empty());
        r
    }
}

/// One outbound operation on the platform: its method name, the target
/// conversation and message, and what to show.
#[derive(Clone, Debug, PartialEq, Eq)]
pub struct ReplyMsg {
    pub chat_id: i64,
    pub text: Option<String>,
    pub msg_type: String,
    pub message_id: Option<i64>,
    pub reply_markup: Option<InlineKeyboardMarkup>,
}

/// The request body of an outbound operation.
#[derive(Clone, Debug, PartialEq, Eq)]
pub struct ReplyMsgBody {
    pub chat_id: i64,
    pub text: Option<String>,
    pub message_id: Option<i64>,
    pub reply_markup: Option<InlineKeyboardMarkup>,
}

impl ReplyMsg {
    /// The body sent for this operation: every field but the method name.
    pub fn into_body(self) -> (r: ReplyMsgBody)
        ensures
            r.chat_id == self.chat_id,
            r.text == self.text,
            r.message_id == self.message_id,
            r.reply_markup == self.reply_markup,
    {
        ReplyMsgBody {
            chat_id: self.chat_id,
            text: self.text,
            message_id: self.message_id,
            reply_markup: self.reply_markup,
        }
    }
}

/// Rows of buttons shown under a message.
#[derive(Clone, Debug, PartialEq, Eq)]
pub struct InlineKeyboardMarkup {
    pub inline_keyboard: Vec<Vec<InlineKeyboardButton>>,
}

/// A button with its label and the token its press sends back.
#[derive(Clone, Debug, PartialEq, Eq)]
pub struct InlineKeyboardButton {
    pub text: String,
    pub callback_data: Option<String>,
}

} // verus!
