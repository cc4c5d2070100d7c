use vstd::prelude::*;
use crate::commands::{buttons_view, ButtonView, InlineKeyboardButton};
use crate::messages::{BotText, BotTextView};
use crate::parse::ParseError;
use crate::store::StoreError;

verus! {

/// A user of the chat platform, as an update names them.
#[derive(Debug)]
pub struct ChatUser {
    /// The platform's id of the user.
    pub id: i64,
    /// Whether the user is a bot.
    pub is_bot: bool,
    /// The user's first name.
    pub first_name: String,
    /// The user's handle, without the `@`.
    pub username: Option<String>,
}

/// Where a forwarded message comes from.
#[derive(Debug)]
pub enum ForwardedFrom {
    /// A user, or a bot, wrote it.
    User(ChatUser),
    /// It comes from a channel or a group.
    Chat,
    /// Its author hides behind a name.
    SenderName(String),
}

/// A message that the bot received.
#[derive(Debug)]
pub struct Message {
    /// The id of the message in its chat.
    pub id: i32,
    /// The chat that the message stands in.
    pub chat_id: i64,
    /// Who sent the message.
    pub from: Option<ChatUser>,
    /// The text of the message, if it is a text message.
    pub text: Option<String>,
    /// Where the message was forwarded from, if it was forwarded.
    pub forward: Option<ForwardedFrom>,
}

/// A search typed behind the bot's name.
#[derive(Debug)]
pub struct InlineQuery {
    pub id: String,
    pub query: String,
}

/// A press on a button under one of the bot's messages.
#[derive(Debug)]
pub struct CallbackQuery {
    pub id: String,
    /// The message that the button stands under.
    pub message: Option<Message>,
    /// What the button carries.
    pub data: Option<String>,
}

/// What an update holds.
#[derive(Debug)]
pub enum UpdateKind {
    Message(Message),
    InlineQuery(InlineQuery),
    CallbackQuery(CallbackQuery),
    /// Anything that the bot does not handle.
    Other,
}

/// One update from the chat platform.
#[derive(Debug)]
pub struct Update {
    pub id: i32,
    pub kind: UpdateKind,
}

/// One result of a search: a record that can be sent as a message.
#[derive(Debug)]
pub struct InlineQueryResultArticle {
    /// The id of the record, written out.
    pub id: String,
    /// The text of the record.
    pub title: String,
    /// The message that is sent when the result is chosen.
    pub message_text: String,
    /// Who wrote the record.
    pub description: String,
}

/// What an `InlineQueryResultArticle` holds, as mathematical values.
pub struct ArticleView {
    pub id: Seq<char>,
    pub title: Seq<char>,
    pub message_text: Seq<char>,
    pub description: Seq<char>,
}

impl View for InlineQueryResultArticle {
    type V = ArticleView;

    open spec fn view(&self) -> ArticleView {
        ArticleView {
            id: self.id@,
            title: self.title@,
            message_text: self.message_text@,
            description: self.description@,
        }
    }
}

/// What articles hold, as mathematical values.
pub open spec fn articles_view(articles: Seq<InlineQueryResultArticle>) -> Seq<ArticleView> {
    Seq::new(articles.len(), |i: int| articles[i]@)
}

/// Something that the bot asks the chat platform to do.
#[derive(Debug)]
pub enum Output {
    /// Send `text` to the chat.
    SendMessage { chat_id: i64, text: BotText },
    /// Send `text` to the chat, in answer to the message `message_id`.
    SendReply { chat_id: i64, message_id: i32, text: BotText },
    /// Tell the user `user_id` in private that a message of theirs was recorded.
    Notify { user_id: i64, text: BotText },
    /// Put `body` and the buttons in place of the answer that was sent just before.
    EditReply { chat_id: i64, body: String, keyboard: Vec<InlineKeyboardButton> },
    /// Put `body` and the buttons in place of the message `message_id`.
    EditMessage { chat_id: i64, message_id: i32, body: String, keyboard: Vec<InlineKeyboardButton> },
    /// Answer the search `id` with `results`.
    AnswerInlineQuery { id: String, results: Vec<InlineQueryResultArticle> },
    /// Tell the platform that the press `id` was handled.
    AnswerCallbackQuery { id: String },
}

/// What an `Output` holds, as mathematical values.
pub enum OutputView {
    SendMessage { chat_id: int, text: BotTextView },
    SendReply { chat_id: int, message_id: int, text: BotTextView },
    Notify { user_id: int, text: BotTextView },
    EditReply { chat_id: int, body: Seq<char>, keyboard: Seq<ButtonView> },
    EditMessage { chat_id: int, message_id: int, body: Seq<char>, keyboard: Seq<ButtonView> },
    AnswerInlineQuery { id: Seq<char>, results: Seq<ArticleView> },
    AnswerCallbackQuery { id: Seq<char> },
}

impl View for Output {
    type V = OutputView;

    open spec fn view(&self) -> OutputView {
        match self {
            Output::SendMessage { chat_id, text } => OutputView::SendMessage {
                chat_id: *chat_id as int,
                text: text@,
            },
            Output::SendReply { chat_id, message_id, text } => OutputView::SendReply {
                chat_id: *chat_id as int,
                message_id: *message_id as int,
                text: text@,
            },
            Output::Notify { user_id, text } => OutputView::Notify {
                user_id: *user_id as int,
                text: text@,
            },
            Output::EditReply { chat_id, body, keyboard } => OutputView::EditReply {
                chat_id: *chat_id as int,
                body: body@,
                keyboard: buttons_view(keyboard@),
            },
            Output::EditMessage { chat_id, message_id, body, keyboard } => OutputView::EditMessage {
                chat_id: *chat_id as int,
                message_id: *message_id as int,
                body: body@,
                keyboard: buttons_view(keyboard@),
            },
            Output::AnswerInlineQuery { id, results } => OutputView::AnswerInlineQuery {
                id: id@,
                results: articles_view(results@),
            },
            Output::AnswerCallbackQuery { id } => OutputView::AnswerCallbackQuery { id: id@ },
        }
    }
}

/// What outputs hold, as mathematical values.
pub open spec fn outputs_view(outputs: Seq<Output>) -> Seq<OutputView> {
    Seq::new(outputs.len(), |i: int| outputs[i]@)
}

/// Why an update was dropped.
#[derive(Debug, Clone, Copy, PartialEq, Eq, Structural)]
pub enum Failure {
    /// The store refused to write.
    Store(StoreError),
    /// The token of a button could not be read.
    Token(ParseError),
}

/// What handling an update led to: what to ask of the chat platform, in order, and why the
/// update was dropped, if it was.
#[derive(Debug)]
pub struct Handled {
    pub outputs: Vec<Output>,
    pub failure: Option<Failure>,
}

/// What a `Handled` holds, as mathematical values.
pub struct HandledView {
    pub outputs: Seq<OutputView>,
    pub failure: Option<Failure>,
}

impl View for Handled {
    type V = HandledView;

    open spec fn view(&self) -> HandledView {
        HandledView { outputs: outputs_view(self.outputs@), failure: self.failure }
    }
}

impl Handled {
    /// Nothing to do.
    pub fn quiet() -> (h: Self)
        ensures
            h@ == (HandledView { outputs: Seq::empty(), failure: None }),
    {
        let h = Handled { outputs: Vec::new(), failure: None };
        assert(h@.outputs =~= Seq::empty());
        h
    }

    /// The update was dropped.
    pub fn failed(failure: Failure) -> (h: Self)
        ensures
            h@ == (HandledView { outputs: Seq::empty(), failure: Some(failure) }),
    {
        let h = Handled { outputs: Vec::new(), failure: Some(failure) };
        assert(h@.outputs =~= Seq::empty());
        h
    }

    /// One thing to do.
    pub fn one(output: Output) -> (h: Self)
        ensures
            h@ == (HandledView { outputs: seq![output@], failure: None }),
    {
        let mut outputs: Vec<Output> = Vec::new();
        outputs.push(output);
        let h = Handled { outputs, failure: None };
        assert(h@.outputs =~= seq![output@]);
        h
    }

    /// Two things to do, `first` before `second`.
    pub fn two(first: Output, second: Output) -> (h: Self)
        ensures
            h@ == (HandledView { outputs: seq![first@, second@], failure: None }),
    {
        let mut outputs: Vec<Output> = Vec::new();
        outputs.push(first);
        outputs.push(second);
        let h = Handled { outputs, failure: None };
        assert(h@.outputs =~= seq![first@, second@]);
        h
    }
}

impl Message {
    /// An answer to this message.
    pub fn reply(&self, text: BotText) -> (o: Output)
        ensures
            o@ == (OutputView::SendReply {
                chat_id: self.chat_id as int,
                message_id: self.id as int,
                text: text@,
            }),
    {
        Output::SendReply { chat_id: self.chat_id, message_id: self.id, text }
    }

    /// A message to the chat of this message.
    pub fn answer(&self, text: BotText) -> (o: Output)
        ensures
            o@ == (OutputView::SendMessage { chat_id: self.chat_id as int, text: text@ }),
    {
        Output::SendMessage { chat_id: self.chat_id, text }
    }
}

} // verus!
