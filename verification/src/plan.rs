use vstd::prelude::*;
use crate::bot::articles;
use crate::callback_commands::{decoded, CallbackCommands, CallbackView};
use crate::commands::{
    classified, classify, is_command, looks_like_command, page_shown, Classified,
    ClassifiedView, CommandHandler, Commands, CommandsView, ValidationError,
};
use crate::db_controller::{Seen, StoreAnswer, StoreRequest};
use crate::messages::{BotText, BotTextView};
use crate::store::{answered, AnswerView, RequestView, SeenView, StoreError, StoreView};
use crate::telegram::{
    CallbackQuery, ChatUser, Failure, ForwardedFrom, Handled, HandledView, InlineQuery,
    Message, Output, OutputView, Update, UpdateKind,
};
use crate::workflow::{
    articles_of, author_handle, handle, human_sender, notice, notice_due, reply_to, sent_to,
    Outcome,
};

verus! {

/// How to go on when the store has answered.
#[derive(Debug)]
pub enum Then {
    /// Where it was written: send `output`.
    Say { output: Output },
    /// Where the forward was recorded: send `noted`, and `notice` where the author has notices
    /// switched on.
    Confirm { noted: Output, notice: Option<Output> },
    /// Send `loading`, and put the page in its place where there is one.
    ShowPage { loading: Output, chat_id: i64, message_id: i32, username: String },
    /// Put the page in place of the message `message_id`, and answer the press.
    TurnPage { chat_id: i64, message_id: i32, username: String, callback_id: String },
    /// Answer the search `query_id` with what was found.
    Articles { query_id: String },
}

/// What a `Then` holds, as mathematical values.
pub enum ThenView {
    Say { output: OutputView },
    Confirm { noted: OutputView, notice: Option<OutputView> },
    ShowPage { loading: OutputView, chat_id: int, message_id: int, username: Seq<char> },
    TurnPage { chat_id: int, message_id: int, username: Seq<char>, callback_id: Seq<char> },
    Articles { query_id: Seq<char> },
}

impl View for Then {
    type V = ThenView;

    open spec fn view(&self) -> ThenView {
        match self {
            Then::Say { output } => ThenView::Say { output: output@ },
            Then::Confirm { noted, notice } => ThenView::Confirm {
                noted: noted@,
                notice: match notice {
                    Some(n) => Some(n@),
                    None => None,
                },
            },
            Then::ShowPage { loading, chat_id, message_id, username } => ThenView::ShowPage {
                loading: loading@,
                chat_id: *chat_id as int,
                message_id: *message_id as int,
                username: username@,
            },
            Then::TurnPage { chat_id, message_id, username, callback_id } => ThenView::TurnPage {
                chat_id: *chat_id as int,
                message_id: *message_id as int,
                username: username@,
                callback_id: callback_id@,
            },
            Then::Articles { query_id } => ThenView::Articles { query_id: query_id@ },
        }
    }
}

/// What an update asks for: nothing of the store, or one request and how to go on with its
/// answer.
#[derive(Debug)]
pub enum Plan {
    Done(Handled),
    Ask { request: StoreRequest, then: Then },
}

/// What a `Plan` holds, as mathematical values.
pub enum PlanView {
    Done(HandledView),
    Ask { request: RequestView, then: ThenView },
}

impl View for Plan {
    type V = PlanView;

    open spec fn view(&self) -> PlanView {
        match self {
            Plan::Done(h) => PlanView::Done(h@),
            Plan::Ask { request, then } => PlanView::Ask { request: request@, then: then@ },
        }
    }
}

/// Nothing to do.
pub open spec fn nothing() -> HandledView {
    HandledView { outputs: Seq::empty(), failure: None }
}

/// The update is dropped.
pub open spec fn failure(failure: Failure) -> HandledView {
    HandledView { outputs: Seq::empty(), failure: Some(failure) }
}

/// `outputs` are to be done.
pub open spec fn outputs(outputs: Seq<OutputView>) -> HandledView {
    HandledView { outputs, failure: None }
}

/// What follows from the answer of the store. Where the store refused, the update is dropped
/// with the store's reason and nothing is sent; an answer to another request than was made
/// counts as a failure of the store.
pub open spec fn concluded(then: ThenView, answer: AnswerView) -> HandledView {
    match (then, answer) {
        (_, AnswerView::Failed(e)) => failure(Failure::Store(e)),
        (ThenView::Say { output }, AnswerView::Written) => outputs(seq![output]),
        (ThenView::Confirm { noted, notice }, AnswerView::Recorded { notify }) => {
            if notify && notice is Some {
                outputs(seq![noted, notice->0])
            } else {
                outputs(seq![noted])
            }
        },
        (
            ThenView::ShowPage { loading, chat_id, message_id, username },
            AnswerView::Page(Some(data)),
        ) => outputs(
            seq![
                loading,
                OutputView::EditReply {
                    chat_id,
                    body: page_shown(data, username, message_id).0,
                    keyboard: page_shown(data, username, message_id).1,
                },
            ],
        ),
        (ThenView::ShowPage { loading, chat_id, message_id, username }, AnswerView::Page(None)) => {
            outputs(seq![loading])
        },
        (
            ThenView::TurnPage { chat_id, message_id, username, callback_id },
            AnswerView::Page(Some(data)),
        ) => outputs(
            seq![
                OutputView::EditMessage {
                    chat_id,
                    message_id,
                    body: page_shown(data, username, message_id).0,
                    keyboard: page_shown(data, username, message_id).1,
                },
                OutputView::AnswerCallbackQuery { id: callback_id },
            ],
        ),
        (
            ThenView::TurnPage { chat_id, message_id, username, callback_id },
            AnswerView::Page(None),
        ) => nothing(),
        (ThenView::Articles { query_id }, AnswerView::Found(data)) => outputs(
            seq![OutputView::AnswerInlineQuery { id: query_id, results: articles_of(data.rows) }],
        ),
        _ => failure(Failure::Store(StoreError::Storage)),
    }
}

/// What a plan leads to on the store `v`: the store after its request, and what follows from
/// the answer.
pub open spec fn carried(v: StoreView, plan: PlanView) -> Outcome {
    match plan {
        PlanView::Done(handled) => Outcome { store: v, handled },
        PlanView::Ask { request, then } => Outcome {
            store: answered(v, request).0,
            handled: concluded(then, answered(v, request).1),
        },
    }
}

/// A user as the store is to see them.
pub open spec fn seen_of(user: ChatUser) -> SeenView {
    SeenView { tg_uid: user.id as int, username: handle(user) }
}

/// The sender of a message as the store is to see them, if the message has one.
pub open spec fn sender_seen(message: Message) -> Option<SeenView> {
    match message.from {
        Some(sender) => Some(seen_of(sender)),
        None => None,
    }
}

/// The plan for a forwarded message of a user: record the text for its author, with its sender
/// seen; then confirm to the sender, and tell the author where the sender is someone else.
pub open spec fn forward_planned(message: Message, data: Seq<char>, author: ChatUser) -> PlanView {
    PlanView::Ask {
        request: RequestView::Record { from: sender_seen(message), author: seen_of(author), text: data },
        then: ThenView::Confirm {
            noted: reply_to(message, BotTextView::Noted { data }),
            notice: if notice_due(message.from, author) {
                Some(notice(message.from->0, author, data))
            } else {
                None
            },
        },
    }
}

/// The plan of a command for the sender of the message; nothing where the message has no
/// sender or a bot sent it.
pub open spec fn sender_planned(message: Message, plan: spec_fn(ChatUser) -> PlanView) -> PlanView {
    match human_sender(message) {
        Some(sender) => plan(sender),
        None => PlanView::Done(nothing()),
    }
}

/// The plan that meets `sender` and then answers `message` with `text`.
pub open spec fn greeted(message: Message, sender: ChatUser, text: BotTextView) -> PlanView {
    PlanView::Ask {
        request: RequestView::Meet { sender: seen_of(sender) },
        then: ThenView::Say { output: reply_to(message, text) },
    }
}

/// The plan for `help`.
pub open spec fn help_planned(message: Message) -> PlanView {
    sender_planned(message, |sender: ChatUser| greeted(message, sender, BotTextView::Help))
}

/// The plan for `about`.
pub open spec fn about_planned(message: Message) -> PlanView {
    sender_planned(message, |sender: ChatUser| greeted(message, sender, BotTextView::About))
}

/// The plan for `setup`: the sender is taken in, and welcomed where the store took them.
pub open spec fn setup_planned(message: Message) -> PlanView {
    sender_planned(
        message,
        |sender: ChatUser|
            PlanView::Ask {
                request: RequestView::Register { sender: seen_of(sender) },
                then: ThenView::Say { output: reply_to(message, BotTextView::Welcome) },
            },
    )
}

/// The plan for `mute` and `unmute`: the sender is taken in, their notices are switched, and
/// they are told so.
pub open spec fn notify_planned(message: Message, enabled: bool) -> PlanView {
    sender_planned(
        message,
        |sender: ChatUser|
            PlanView::Ask {
                request: RequestView::SetNotify { sender: seen_of(sender), enabled },
                then: ThenView::Say {
                    output: reply_to(message, BotTextView::MuteStatus { enabled }),
                },
            },
    )
}

/// The plan for `del`: the sender is met, the record is deleted where it is theirs, and they
/// are answered either way.
pub open spec fn del_planned(message: Message, id: int) -> PlanView {
    sender_planned(
        message,
        |sender: ChatUser|
            PlanView::Ask {
                request: RequestView::Delete { sender: seen_of(sender), id },
                then: ThenView::Say { output: reply_to(message, BotTextView::Deleted) },
            },
    )
}

/// The plan for `list`: the sender is met, and the page is shown in place of an answer that
/// says that the records are looked up.
pub open spec fn list_planned(message: Message, username: Seq<char>, page: int) -> PlanView {
    sender_planned(
        message,
        |sender: ChatUser|
            PlanView::Ask {
                request: RequestView::Page { from: Some(seen_of(sender)), username, page },
                then: ThenView::ShowPage {
                    loading: reply_to(message, BotTextView::Loading),
                    chat_id: message.chat_id as int,
                    message_id: message.id as int,
                    username,
                },
            },
    )
}

/// The plan for a command.
pub open spec fn command_planned_of(message: Message, command: CommandsView) -> PlanView {
    match command {
        CommandsView::Help => help_planned(message),
        CommandsView::About => about_planned(message),
        CommandsView::Mute => notify_planned(message, false),
        CommandsView::Unmute => notify_planned(message, true),
        CommandsView::Setup => setup_planned(message),
        CommandsView::Del { id } => del_planned(message, id),
        CommandsView::List { username } => list_planned(message, username, 0),
    }
}

/// The plan for a message that is meant as a command. A message without text or without a
/// sender, one of a bot, one that is no command and one with a record id that is no number
/// ask for nothing; a user name without `@` is answered with a hint, and nothing is written.
pub open spec fn command_planned(message: Message, bot_name: Seq<char>) -> PlanView {
    match (message.text, message.from) {
        (Some(text), Some(sender)) => match classified(text@, sender, bot_name) {
            ClassifiedView::NotACommand => PlanView::Done(nothing()),
            ClassifiedView::Ignored => PlanView::Done(nothing()),
            ClassifiedView::Invalid(ValidationError::MissingAt) => PlanView::Done(
                outputs(seq![reply_to(message, BotTextView::ShouldStartWithAt)]),
            ),
            ClassifiedView::Invalid(ValidationError::InvalidId) => PlanView::Done(nothing()),
            ClassifiedView::Command(command) => command_planned_of(message, command),
        },
        _ => PlanView::Done(nothing()),
    }
}

/// The plan for a text message, by where it comes from.
pub open spec fn text_planned(message: Message, data: Seq<char>, bot_name: Seq<char>) -> PlanView {
    match message.forward {
        None => if looks_like_command(data) {
            command_planned(message, bot_name)
        } else {
            PlanView::Done(outputs(seq![reply_to(message, BotTextView::ForwardedOnly)]))
        },
        Some(ForwardedFrom::User(author)) => if author.is_bot {
            PlanView::Done(outputs(seq![reply_to(message, BotTextView::NoBot)]))
        } else {
            forward_planned(message, data, author)
        },
        Some(_) => PlanView::Done(outputs(seq![sent_to(message, BotTextView::UserOnly)])),
    }
}

/// The plan for a message.
pub open spec fn message_planned(message: Message, bot_name: Seq<char>) -> PlanView {
    match message.text {
        Some(data) => text_planned(message, data@, bot_name),
        None => PlanView::Done(outputs(seq![reply_to(message, BotTextView::MessageOnly)])),
    }
}

/// The plan for a press on a button: where its token asks for a page of a user's records, the
/// page is put in place of the message under which the button stands. A token that cannot be
/// read drops the press.
pub open spec fn callback_planned(callback: CallbackQuery, bot_name: Seq<char>) -> PlanView {
    match (callback.message, callback.data) {
        (Some(message), Some(token)) => match decoded(token@, bot_name) {
            Err(e) => PlanView::Done(failure(Failure::Token(e))),
            Ok(CallbackView::Default) => PlanView::Done(nothing()),
            Ok(CallbackView::Page { msg_id, username, page }) => PlanView::Ask {
                request: RequestView::Page { from: None, username, page },
                then: ThenView::TurnPage {
                    chat_id: message.chat_id as int,
                    message_id: message.id as int,
                    username,
                    callback_id: callback.id@,
                },
            },
        },
        _ => PlanView::Done(nothing()),
    }
}

/// The plan for a search.
pub open spec fn inline_planned(query: InlineQuery) -> PlanView {
    PlanView::Ask {
        request: RequestView::Search { key_word: query.query@ },
        then: ThenView::Articles { query_id: query.id@ },
    }
}

/// The plan for an update.
pub open spec fn update_planned(update: Update, bot_name: Seq<char>) -> PlanView {
    match update.kind {
        UpdateKind::Message(message) => message_planned(message, bot_name),
        UpdateKind::InlineQuery(query) => inline_planned(query),
        UpdateKind::CallbackQuery(callback) => callback_planned(callback, bot_name),
        UpdateKind::Other => PlanView::Done(nothing()),
    }
}

/// `user` as the store is to see them.
pub fn seen(user: &ChatUser) -> (r: Seen)
    ensures
        r@ == seen_of(*user),
{
    Seen { tg_uid: user.id, username: author_handle(user) }
}

/// What follows from the answer of the store.
pub fn conclude(then: Then, answer: StoreAnswer) -> (h: Handled)
    ensures
        h@ == concluded(then@, answer@),
{
    match answer {
        StoreAnswer::Failed(e) => Handled::failed(Failure::Store(e)),
        StoreAnswer::Written => match then {
            Then::Say { output } => Handled::one(output),
            _ => Handled::failed(Failure::Store(StoreError::Storage)),
        },
        StoreAnswer::Recorded { notify } => match then {
            Then::Confirm { noted, notice } => {
                if notify {
                    match notice {
                        Some(n) => Handled::two(noted, n),
                        None => Handled::one(noted),
                    }
                } else {
                    Handled::one(noted)
                }
            },
            _ => Handled::failed(Failure::Store(StoreError::Storage)),
        },
        StoreAnswer::Page(page) => match then {
            Then::ShowPage { loading, chat_id, message_id, username } => match page {
                Some(data) => {
                    let (body, keyboard) = CommandHandler::show_page(
                        &data,
                        username.as_str(),
                        message_id,
                    );
                    Handled::two(loading, Output::EditReply { chat_id, body, keyboard })
                },
                None => Handled::one(loading),
            },
            Then::TurnPage { chat_id, message_id, username, callback_id } => match page {
                Some(data) => {
                    let (body, keyboard) = CommandHandler::show_page(
                        &data,
                        username.as_str(),
                        message_id,
                    );
                    Handled::two(
                        Output::EditMessage { chat_id, message_id, body, keyboard },
                        Output::AnswerCallbackQuery { id: callback_id },
                    )
                },
                None => Handled::quiet(),
            },
            _ => Handled::failed(Failure::Store(StoreError::Storage)),
        },
        StoreAnswer::Found(data) => match then {
            Then::Articles { query_id } => Handled::one(
                Output::AnswerInlineQuery { id: query_id, results: articles(&data.current_data) },
            ),
            _ => Handled::failed(Failure::Store(StoreError::Storage)),
        },
    }
}

/// The plan for a forwarded message of a user.
pub fn forward_plan(message: &Message, data: &str, author: &ChatUser) -> (p: Plan)
    ensures
        p@ == forward_planned(*message, data@, *author),
{
    let from = match &message.from {
        Some(sender) => Some(seen(sender)),
        None => None,
    };
    let notice = match &message.from {
        Some(sender) => {
            if sender.id != author.id {
                Some(
                    Output::Notify {
                        user_id: author.id,
                        text: BotText::Notice {
                            username: sender.first_name.clone(),
                            user_id: sender.id,
                            data: data.to_owned(),
                        },
                    },
                )
            } else {
                None
            }
        },
        None => None,
    };
    Plan::Ask {
        request: StoreRequest::Record { from, author: seen(author), text: data.to_owned() },
        then: Then::Confirm {
            noted: message.reply(BotText::Noted { data: data.to_owned() }),
            notice,
        },
    }
}

/// The plan that meets `sender` and then answers `message` with `text`.
fn greet(message: &Message, sender: &ChatUser, text: BotText) -> (p: Plan)
    ensures
        p@ == greeted(*message, *sender, text@),
{
    Plan::Ask {
        request: StoreRequest::Meet { sender: seen(sender) },
        then: Then::Say { output: message.reply(text) },
    }
}

/// The sender of `message`, where there is one and it is no bot.
pub fn sender_of(message: &Message) -> (r: Option<&ChatUser>)
    ensures
        match r {
            Some(sender) => human_sender(*message) == Some(*sender),
            None => human_sender(*message) is None,
        },
{
    match &message.from {
        Some(sender) => if sender.is_bot {
            None
        } else {
            Some(sender)
        },
        None => None,
    }
}

/// The plan for `help`.
pub fn help_plan(message: &Message) -> (p: Plan)
    ensures
        p@ == help_planned(*message),
{
    match sender_of(message) {
        Some(sender) => greet(message, sender, BotText::Help),
        None => Plan::Done(Handled::quiet()),
    }
}

/// The plan for `about`.
pub fn about_plan(message: &Message) -> (p: Plan)
    ensures
        p@ == about_planned(*message),
{
    match sender_of(message) {
        Some(sender) => greet(message, sender, BotText::About),
        None => Plan::Done(Handled::quiet()),
    }
}

/// The plan for `setup`.
pub fn setup_plan(message: &Message) -> (p: Plan)
    ensures
        p@ == setup_planned(*message),
{
    match sender_of(message) {
        Some(sender) => Plan::Ask {
            request: StoreRequest::Register { sender: seen(sender) },
            then: Then::Say { output: message.reply(BotText::Welcome) },
        },
        None => Plan::Done(Handled::quiet()),
    }
}

/// The plan for `mute` and `unmute`.
pub fn notify_plan(message: &Message, enabled: bool) -> (p: Plan)
    ensures
        p@ == notify_planned(*message, enabled),
{
    match sender_of(message) {
        Some(sender) => Plan::Ask {
            request: StoreRequest::SetNotify { sender: seen(sender), enabled },
            then: Then::Say { output: message.reply(BotText::MuteStatus { enabled }) },
        },
        None => Plan::Done(Handled::quiet()),
    }
}

/// The plan for `del`.
pub fn del_plan(message: &Message, id: i64) -> (p: Plan)
    ensures
        p@ == del_planned(*message, id as int),
{
    match sender_of(message) {
        Some(sender) => Plan::Ask {
            request: StoreRequest::Delete { sender: seen(sender), id },
            then: Then::Say { output: message.reply(BotText::Deleted) },
        },
        None => Plan::Done(Handled::quiet()),
    }
}

/// The plan for `list`.
pub fn list_plan(message: &Message, username: &str, page: usize) -> (p: Plan)
    ensures
        p@ == list_planned(*message, username@, page as int),
{
    match sender_of(message) {
        Some(sender) => Plan::Ask {
            request: StoreRequest::Page {
                from: Some(seen(sender)),
                username: username.to_owned(),
                page,
            },
            then: Then::ShowPage {
                loading: message.reply(BotText::Loading),
                chat_id: message.chat_id,
                message_id: message.id,
                username: username.to_owned(),
            },
        },
        None => Plan::Done(Handled::quiet()),
    }
}

/// The plan for a message that is meant as a command, as the bot called `bot_name`.
pub fn command_plan(message: &Message, bot_name: &str) -> (p: Plan)
    ensures
        p@ == command_planned(*message, bot_name@),
{
    let msg = match &message.text {
        Some(msg) => msg,
        None => {
            return Plan::Done(Handled::quiet());
        },
    };
    let sender = match &message.from {
        Some(sender) => sender,
        None => {
            return Plan::Done(Handled::quiet());
        },
    };
    match classify(msg.as_str(), sender, bot_name) {
        Classified::NotACommand => Plan::Done(Handled::quiet()),
        Classified::Ignored => Plan::Done(Handled::quiet()),
        Classified::Invalid(ValidationError::MissingAt) => Plan::Done(
            Handled::one(message.reply(BotText::ShouldStartWithAt)),
        ),
        Classified::Invalid(ValidationError::InvalidId) => Plan::Done(Handled::quiet()),
        Classified::Command(Commands::Help) => help_plan(message),
        Classified::Command(Commands::About) => about_plan(message),
        Classified::Command(Commands::Mute) => notify_plan(message, false),
        Classified::Command(Commands::Unmute) => notify_plan(message, true),
        Classified::Command(Commands::Setup) => setup_plan(message),
        Classified::Command(Commands::Del { id }) => del_plan(message, id),
        Classified::Command(Commands::List { username }) => {
            // always start from page=0
            list_plan(message, username.as_str(), 0)
        },
    }
}

/// The plan for a text message, as the bot called `bot_name`.
pub fn text_plan(message: &Message, data: &str, bot_name: &str) -> (p: Plan)
    ensures
        p@ == text_planned(*message, data@, bot_name@),
{
    match &message.forward {
        None => {
            if is_command(data) {
                command_plan(message, bot_name)
            } else {
                Plan::Done(Handled::one(message.reply(BotText::ForwardedOnly)))
            }
        },
        Some(ForwardedFrom::User(user)) => {
            if user.is_bot {
                Plan::Done(Handled::one(message.reply(BotText::NoBot)))
            } else {
                forward_plan(message, data, user)
            }
        },
        Some(_) => Plan::Done(Handled::one(message.answer(BotText::UserOnly))),
    }
}

/// The plan for a message.
pub fn message_plan(message: &Message, bot_name: &str) -> (p: Plan)
    ensures
        p@ == message_planned(*message, bot_name@),
{
    match &message.text {
        Some(data) => text_plan(message, data.as_str(), bot_name),
        None => Plan::Done(Handled::one(message.reply(BotText::MessageOnly))),
    }
}

/// The plan for a press on a button, as the bot called `bot_name`.
pub fn callback_plan(callback: &CallbackQuery, bot_name: &str) -> (p: Plan)
    ensures
        p@ == callback_planned(*callback, bot_name@),
{
    let message = match &callback.message {
        Some(msg) => msg,
        None => {
            return Plan::Done(Handled::quiet());
        },
    };
    let text = match &callback.data {
        Some(text) => text,
        None => {
            return Plan::Done(Handled::quiet());
        },
    };
    match CallbackCommands::decode(text.as_str(), bot_name) {
        Err(e) => Plan::Done(Handled::failed(Failure::Token(e))),
        Ok(CallbackCommands::Default) => Plan::Done(Handled::quiet()),
        Ok(CallbackCommands::Page { msg_id: _, username, page }) => Plan::Ask {
            request: StoreRequest::Page { from: None, username: username.clone(), page },
            then: Then::TurnPage {
                chat_id: message.chat_id,
                message_id: message.id,
                username,
                callback_id: callback.id.clone(),
            },
        },
    }
}

/// The plan for a search.
pub fn inline_plan(inline_query: &InlineQuery) -> (p: Plan)
    ensures
        p@ == inline_planned(*inline_query),
{
    Plan::Ask {
        request: StoreRequest::Search { key_word: inline_query.query.clone() },
        then: Then::Articles { query_id: inline_query.id.clone() },
    }
}

/// The plan for an update, as the bot called `bot_name`.
pub fn update_plan(update: &Update, bot_name: &str) -> (p: Plan)
    ensures
        p@ == update_planned(*update, bot_name@),
{
    match &update.kind {
        UpdateKind::Message(message) => message_plan(message, bot_name),
        UpdateKind::InlineQuery(inline_query) => inline_plan(inline_query),
        UpdateKind::CallbackQuery(callback) => callback_plan(callback, bot_name),
        UpdateKind::Other => Plan::Done(Handled::quiet()),
    }
}

} // verus!
