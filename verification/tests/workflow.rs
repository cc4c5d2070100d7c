use saysthbot::bot::Bot;
use saysthbot::commands::{CommandHandler, Navigation};
use saysthbot::config::Args;
use saysthbot::store::StoreError;
use saysthbot::messages::BotText;
use saysthbot::parse::ParseError;
use saysthbot::telegram::{
    CallbackQuery, ChatUser, Failure, ForwardedFrom, Handled, InlineQuery, Message, Output,
    Update, UpdateKind,
};
use saysthbot::workflow::author_handle;

const BOT_NAME: &str = "ssthbot";

fn new_bot() -> Bot {
    Bot::new(Args {
        debug: false,
        tgbot_token: String::from("test-token"),
        database_uri: String::from("sqlite:///saysthbot.db"),
        api_url: String::from("https://api.telegram.org"),
    })
}

fn person(id: i64, handle: &str) -> ChatUser {
    ChatUser {
        id,
        is_bot: false,
        first_name: format!("First{}", id),
        username: Some(String::from(handle)),
    }
}

fn alice() -> ChatUser {
    person(1001, "alice")
}

fn bob() -> ChatUser {
    person(1002, "bob")
}

fn text_from(sender: &ChatUser, id: i32, text: &str) -> Message {
    Message {
        id,
        chat_id: sender.id,
        from: Some(ChatUser {
            id: sender.id,
            is_bot: sender.is_bot,
            first_name: sender.first_name.clone(),
            username: sender.username.clone(),
        }),
        text: Some(String::from(text)),
        forward: None,
    }
}

fn forward_from(sender: &ChatUser, author: &ChatUser, id: i32, text: &str) -> Message {
    let mut m = text_from(sender, id, text);
    m.forward = Some(ForwardedFrom::User(ChatUser {
        id: author.id,
        is_bot: author.is_bot,
        first_name: author.first_name.clone(),
        username: author.username.clone(),
    }));
    m
}

fn send(bot: &mut Bot, message: Message) -> Handled {
    bot.update_handler(&Update { id: 1, kind: UpdateKind::Message(message) }, BOT_NAME)
}

fn notices(h: &Handled) -> usize {
    h.outputs.iter().filter(|o| matches!(o, Output::Notify { .. })).count()
}

fn is_reply(o: &Output, chat: i64, to: i32) -> bool {
    matches!(o, Output::SendReply { chat_id, message_id, .. } if *chat_id == chat && *message_id == to)
}

#[test]
fn new_bot_keeps_its_configuration_and_holds_nothing() {
    let bot = new_bot();
    assert!(!bot.config.debug);
    assert_eq!(bot.config.tgbot_token, "test-token");
    assert_eq!(bot.config.database_uri, "sqlite:///saysthbot.db");
    assert_eq!(bot.config.api_url, "https://api.telegram.org");
    assert!(bot.controller.users().is_empty());
    assert!(bot.controller.records().is_empty());
}

#[test]
fn forward_of_unknown_author_records_confirms_and_notifies() {
    let mut bot = new_bot();
    let h = send(&mut bot, forward_from(&alice(), &bob(), 10, "hello"));
    assert_eq!(h.failure, None);
    assert_eq!(h.outputs.len(), 2);
    assert!(is_reply(&h.outputs[0], 1001, 10));
    match &h.outputs[0] {
        Output::SendReply { text: BotText::Noted { data }, .. } => assert_eq!(data, "hello"),
        other => panic!("{:?}", other),
    }
    match &h.outputs[1] {
        Output::Notify { user_id, text: BotText::Notice { username, user_id: by, data } } => {
            assert_eq!(*user_id, 1002);
            assert_eq!(username, "First1001");
            assert_eq!(*by, 1001);
            assert_eq!(data, "hello");
        },
        other => panic!("{:?}", other),
    }
    let users = bot.controller.users();
    assert_eq!(users.len(), 2);
    assert_eq!(users[0].tg_uid, 1001);
    assert_eq!(users[0].username.as_deref(), Some("@alice"));
    assert!(users[0].notify);
    assert_eq!(users[1].tg_uid, 1002);
    assert_eq!(users[1].username.as_deref(), Some("@bob"));
    assert!(users[1].notify);
    assert_ne!(users[0].id, users[1].id);
    let records = bot.controller.records();
    assert_eq!(records.len(), 1);
    assert_eq!(records[0].user_id, users[1].id);
    assert_eq!(records[0].message, "hello");
    assert!(records.iter().all(|r| r.user_id != users[0].id));
}

#[test]
fn second_forward_of_the_same_text_is_a_duplicate() {
    let mut bot = new_bot();
    let first = send(&mut bot, forward_from(&alice(), &bob(), 10, "hello"));
    assert_eq!(first.failure, None);
    let same = send(&mut bot, forward_from(&alice(), &bob(), 11, "hello"));
    assert_eq!(same.failure, Some(Failure::Store(StoreError::Duplicate)));
    assert!(same.outputs.is_empty());
    let carol = person(1003, "carol");
    let other = send(&mut bot, forward_from(&carol, &alice(), 12, "hello"));
    assert_eq!(other.failure, Some(Failure::Store(StoreError::Duplicate)));
    assert!(other.outputs.is_empty());
    assert_eq!(bot.controller.records().len(), 1);
    assert_eq!(bot.controller.users().len(), 2);
    assert!(bot.controller.get_user(&1003).unwrap().is_none());
}

#[test]
fn self_forward_is_recorded_without_notice() {
    let mut bot = new_bot();
    let h = send(&mut bot, forward_from(&bob(), &bob(), 10, "mine"));
    assert_eq!(h.outputs.len(), 1);
    assert!(is_reply(&h.outputs[0], 1002, 10));
    assert_eq!(notices(&h), 0);
    assert_eq!(bot.controller.get_user_notify(&1002), Ok(true));
    assert_eq!(bot.controller.records().len(), 1);
    assert_eq!(bot.controller.users().len(), 1);
}

#[test]
fn self_forward_of_a_muted_author_is_recorded_without_notice() {
    let mut bot = new_bot();
    send(&mut bot, text_from(&bob(), 1, "/mute"));
    let h = send(&mut bot, forward_from(&bob(), &bob(), 10, "mine"));
    assert_eq!(h.outputs.len(), 1);
    assert_eq!(notices(&h), 0);
    assert_eq!(bot.controller.get_user_notify(&1002), Ok(false));
    assert_eq!(bot.controller.records()[0].message, "mine");
}

#[test]
fn muted_author_is_not_notified_and_keeps_records() {
    let mut bot = new_bot();
    send(&mut bot, forward_from(&alice(), &bob(), 10, "one"));
    let muted = send(&mut bot, text_from(&bob(), 11, "/mute"));
    assert_eq!(muted.outputs.len(), 1);
    assert!(matches!(
        &muted.outputs[0],
        Output::SendReply { text: BotText::MuteStatus { enabled: false }, .. }
    ));
    assert_eq!(bot.controller.records().len(), 1);
    let h = send(&mut bot, forward_from(&alice(), &bob(), 12, "two"));
    assert_eq!(h.outputs.len(), 1);
    assert_eq!(notices(&h), 0);
    let again = send(&mut bot, forward_from(&alice(), &bob(), 13, "three"));
    assert_eq!(notices(&again), 0);
    assert_eq!(bot.controller.records().len(), 3);
}

#[test]
fn unmute_brings_notices_back() {
    let mut bot = new_bot();
    send(&mut bot, text_from(&bob(), 1, "/mute"));
    let off = send(&mut bot, forward_from(&alice(), &bob(), 2, "one"));
    assert_eq!(notices(&off), 0);
    let unmuted = send(&mut bot, text_from(&bob(), 3, "/unmute"));
    assert!(matches!(
        &unmuted.outputs[0],
        Output::SendReply { text: BotText::MuteStatus { enabled: true }, .. }
    ));
    let on = send(&mut bot, forward_from(&alice(), &bob(), 4, "two"));
    assert_eq!(notices(&on), 1);
}

#[test]
fn mute_before_any_forward_holds() {
    let mut bot = new_bot();
    send(&mut bot, text_from(&bob(), 1, "/mute"));
    assert_eq!(bot.controller.users().len(), 1);
    assert_eq!(bot.controller.get_user_notify(&1002), Ok(false));
    let h = send(&mut bot, forward_from(&alice(), &bob(), 2, "one"));
    assert_eq!(notices(&h), 0);
}

#[test]
fn forward_without_sender_is_recorded_without_notice() {
    let mut bot = new_bot();
    let mut m = forward_from(&alice(), &bob(), 10, "hello");
    m.from = None;
    let h = send(&mut bot, m);
    assert_eq!(h.outputs.len(), 1);
    assert_eq!(notices(&h), 0);
    assert_eq!(bot.controller.records().len(), 1);
}

#[test]
fn author_without_handle_is_kept_by_first_name() {
    let mut bot = new_bot();
    let mut author = bob();
    author.username = None;
    send(&mut bot, forward_from(&alice(), &author, 10, "hello"));
    let kept = bot.controller.get_user(&1002).unwrap().unwrap();
    assert_eq!(kept.username.as_deref(), Some("First1002"));
    assert_eq!(author_handle(&author), "First1002");
    assert_eq!(author_handle(&bob()), "@bob");
}

#[test]
fn forward_of_a_bot_is_refused() {
    let mut bot = new_bot();
    let mut robot = bob();
    robot.is_bot = true;
    let h = send(&mut bot, forward_from(&alice(), &robot, 10, "beep"));
    assert_eq!(h.outputs.len(), 1);
    assert!(matches!(&h.outputs[0], Output::SendReply { text: BotText::NoBot, .. }));
    assert!(bot.controller.records().is_empty());
    assert!(bot.controller.users().is_empty());
}

#[test]
fn forward_from_a_channel_or_hidden_author_is_refused() {
    let mut bot = new_bot();
    let mut m = text_from(&alice(), 10, "news");
    m.forward = Some(ForwardedFrom::Chat);
    let h = send(&mut bot, m);
    assert_eq!(h.outputs.len(), 1);
    assert!(matches!(
        &h.outputs[0],
        Output::SendMessage { chat_id: 1001, text: BotText::UserOnly }
    ));
    let mut hidden = text_from(&alice(), 11, "psst");
    hidden.forward = Some(ForwardedFrom::SenderName(String::from("Someone")));
    let h2 = send(&mut bot, hidden);
    assert!(matches!(&h2.outputs[0], Output::SendMessage { text: BotText::UserOnly, .. }));
    assert!(bot.controller.records().is_empty());
}

#[test]
fn plain_text_is_answered_with_a_hint() {
    let mut bot = new_bot();
    let h = send(&mut bot, text_from(&alice(), 10, "hello there"));
    assert_eq!(h.outputs.len(), 1);
    assert!(matches!(&h.outputs[0], Output::SendReply { text: BotText::ForwardedOnly, .. }));
    assert!(bot.controller.records().is_empty());
}

#[test]
fn message_without_text_is_answered_with_a_hint() {
    let mut bot = new_bot();
    let mut m = text_from(&alice(), 10, "");
    m.text = None;
    let h = send(&mut bot, m);
    assert_eq!(h.outputs.len(), 1);
    assert!(matches!(&h.outputs[0], Output::SendReply { text: BotText::MessageOnly, .. }));
}

#[test]
fn help_and_about_are_answered() {
    let mut bot = new_bot();
    let help = send(&mut bot, text_from(&alice(), 1, "/help"));
    assert!(matches!(&help.outputs[0], Output::SendReply { text: BotText::Help, .. }));
    let about = send(&mut bot, text_from(&alice(), 2, "/about"));
    assert!(matches!(&about.outputs[0], Output::SendReply { text: BotText::About, .. }));
    let unknown = send(&mut bot, text_from(&alice(), 3, "/whatever"));
    assert!(matches!(&unknown.outputs[0], Output::SendReply { text: BotText::Help, .. }));
    let users = bot.controller.users();
    assert_eq!(users.len(), 1);
    assert_eq!(users[0].tg_uid, 1001);
    assert!(users[0].notify);
}

#[test]
fn setup_registers_once() {
    let mut bot = new_bot();
    let h = send(&mut bot, text_from(&alice(), 1, "/setup"));
    assert!(matches!(&h.outputs[0], Output::SendReply { text: BotText::Welcome, .. }));
    let again = send(&mut bot, text_from(&alice(), 2, "/start"));
    assert!(matches!(&again.outputs[0], Output::SendReply { text: BotText::Welcome, .. }));
    let users = bot.controller.users();
    assert_eq!(users.len(), 1);
    assert_eq!(users[0].tg_uid, 1001);
    assert_eq!(users[0].username.as_deref(), Some("@alice"));
}

#[test]
fn commands_of_bots_do_nothing() {
    let mut bot = new_bot();
    let mut robot = alice();
    robot.is_bot = true;
    for text in ["/help", "/setup", "/mute", "/list", "/del 1", "/about"] {
        let h = send(&mut bot, text_from(&robot, 1, text));
        assert!(h.outputs.is_empty(), "{}", text);
        assert_eq!(h.failure, None);
    }
    assert!(bot.controller.users().is_empty());
}

#[test]
fn command_without_sender_does_nothing() {
    let mut bot = new_bot();
    let mut m = text_from(&alice(), 1, "/setup");
    m.from = None;
    let h = send(&mut bot, m);
    assert!(h.outputs.is_empty());
    assert!(bot.controller.users().is_empty());
}

#[test]
fn command_for_another_bot_does_nothing() {
    let mut bot = new_bot();
    let h = send(&mut bot, text_from(&alice(), 1, "/setup@otherbot"));
    assert!(h.outputs.is_empty());
    assert!(bot.controller.users().is_empty());
}

#[test]
fn list_with_a_bare_name_is_answered_with_a_hint() {
    let mut bot = new_bot();
    let h = send(&mut bot, text_from(&alice(), 1, "/list bob"));
    assert_eq!(h.outputs.len(), 1);
    assert!(matches!(&h.outputs[0], Output::SendReply { text: BotText::ShouldStartWithAt, .. }));
}

#[test]
fn delete_with_a_bad_id_does_nothing() {
    let mut bot = new_bot();
    send(&mut bot, forward_from(&alice(), &bob(), 1, "one"));
    let h = send(&mut bot, text_from(&bob(), 2, "/del one"));
    assert!(h.outputs.is_empty());
    assert_eq!(h.failure, None);
    assert_eq!(bot.controller.records().len(), 1);
}

#[test]
fn delete_by_the_owner_removes_the_record() {
    let mut bot = new_bot();
    send(&mut bot, forward_from(&alice(), &bob(), 1, "one"));
    let h = send(&mut bot, text_from(&bob(), 2, "/del 1"));
    assert_eq!(h.outputs.len(), 1);
    assert!(matches!(&h.outputs[0], Output::SendReply { text: BotText::Deleted, .. }));
    assert!(bot.controller.records().is_empty());
}

#[test]
fn delete_forty_two_by_another_user_removes_nothing() {
    let mut bot = new_bot();
    for i in 1..=42 {
        send(&mut bot, forward_from(&alice(), &bob(), i, &format!("text {}", i)));
    }
    assert_eq!(bot.controller.records()[41].id, 42);
    let h = send(&mut bot, text_from(&alice(), 100, "/del 42"));
    assert_eq!(h.failure, None);
    assert_eq!(h.outputs.len(), 1);
    assert!(matches!(&h.outputs[0], Output::SendReply { text: BotText::Deleted, .. }));
    assert_eq!(bot.controller.records().len(), 42);
    send(&mut bot, text_from(&alice(), 101, "/setup"));
    let known = send(&mut bot, text_from(&alice(), 102, "/del 42"));
    assert_eq!(known.failure, None);
    assert_eq!(bot.controller.records().len(), 42);
    send(&mut bot, text_from(&bob(), 103, "/del 42"));
    assert_eq!(bot.controller.records().len(), 41);
}

#[test]
fn list_of_thirty_records_pages_with_buttons() {
    let mut bot = new_bot();
    for i in 1..=30 {
        send(&mut bot, forward_from(&bob(), &alice(), i, &format!("text {}", i)));
    }
    let h = send(&mut bot, text_from(&alice(), 500, "/list"));
    assert_eq!(h.outputs.len(), 2);
    assert!(matches!(&h.outputs[0], Output::SendReply { text: BotText::Loading, message_id: 500, .. }));
    let (body, keyboard) = match &h.outputs[1] {
        Output::EditReply { chat_id, body, keyboard } => {
            assert_eq!(*chat_id, 1001);
            (body.clone(), keyboard)
        },
        other => panic!("{:?}", other),
    };
    assert_eq!(body.lines().count(), 28);
    assert!(body.starts_with("```\n1\t\t\t\ttext 1\n2\t\t\t\ttext 2\n"));
    assert!(body.ends_with("\n25\t\t\t\ttext 25\n```\n1/2"));
    let kinds: Vec<Navigation> = keyboard.iter().map(|b| b.kind).collect();
    assert_eq!(kinds, vec![Navigation::Next, Navigation::End]);
    assert_eq!(keyboard[0].callback_data, "!page 500 @alice 1");

    let shown = Message { id: 501, chat_id: 1001, from: None, text: Some(body), forward: None };
    let press = CallbackQuery {
        id: String::from("cb1"),
        message: Some(shown),
        data: Some(keyboard[0].callback_data.clone()),
    };
    let next = bot.update_handler(&Update { id: 2, kind: UpdateKind::CallbackQuery(press) }, BOT_NAME);
    assert_eq!(next.failure, None);
    assert_eq!(next.outputs.len(), 2);
    match &next.outputs[0] {
        Output::EditMessage { chat_id, message_id, body, keyboard } => {
            assert_eq!((*chat_id, *message_id), (1001, 501));
            assert_eq!(
                body,
                "```\n26\t\t\t\ttext 26\n27\t\t\t\ttext 27\n28\t\t\t\ttext 28\n29\t\t\t\ttext 29\n30\t\t\t\ttext 30\n```\n2/2"
            );
            let kinds: Vec<Navigation> = keyboard.iter().map(|b| b.kind).collect();
            assert_eq!(kinds, vec![Navigation::Head, Navigation::Prev]);
            assert_eq!(keyboard[0].callback_data, "!page 501 @alice 0");
            assert_eq!(keyboard[1].callback_data, "!page 501 @alice 0");
        },
        other => panic!("{:?}", other),
    }
    assert!(matches!(&next.outputs[1], Output::AnswerCallbackQuery { id } if id == "cb1"));
}

#[test]
fn list_of_another_user_by_handle() {
    let mut bot = new_bot();
    send(&mut bot, forward_from(&alice(), &bob(), 1, "bob said"));
    let h = send(&mut bot, text_from(&alice(), 2, "/list @bob"));
    match &h.outputs[1] {
        Output::EditReply { body, keyboard, .. } => {
            assert_eq!(body, "```\n1\t\t\t\tbob said\n```\n1/1");
            assert!(keyboard.is_empty());
        },
        other => panic!("{:?}", other),
    }
    assert_eq!(bot.controller.users().len(), 2);
}

#[test]
fn list_of_an_unknown_handle_creates_no_account_for_it() {
    let mut bot = new_bot();
    let h = send(&mut bot, text_from(&alice(), 2, "/list @nobody"));
    assert_eq!(h.outputs.len(), 1);
    assert!(matches!(&h.outputs[0], Output::SendReply { text: BotText::Loading, .. }));
    let users = bot.controller.users();
    assert_eq!(users.len(), 1);
    assert_eq!(users[0].tg_uid, 1001);
    assert!(bot.controller.get_user_by_username("@nobody").unwrap().is_none());
    let m = text_from(&alice(), 4, "x");
    assert!(CommandHandler::record_msg_genrator(&bot, &m, "@nobody", 0).is_none());
    assert_eq!(bot.controller.users().len(), 1);
}

#[test]
fn first_list_of_a_new_sender_shows_an_empty_page() {
    let mut bot = new_bot();
    let own = send(&mut bot, text_from(&alice(), 3, "/list"));
    assert_eq!(own.outputs.len(), 2);
    match &own.outputs[1] {
        Output::EditReply { body, keyboard, .. } => {
            assert_eq!(body, "```\n```\n1/1");
            assert!(keyboard.is_empty());
        },
        other => panic!("{:?}", other),
    }
    assert_eq!(bot.controller.users().len(), 1);
}

#[test]
fn delete_takes_an_unknown_sender_in() {
    let mut bot = new_bot();
    let h = send(&mut bot, text_from(&alice(), 3, "/del 7"));
    assert_eq!(h.failure, None);
    assert!(matches!(&h.outputs[0], Output::SendReply { text: BotText::Deleted, .. }));
    assert_eq!(bot.controller.users().len(), 1);
    assert_eq!(bot.controller.users()[0].tg_uid, 1001);
}

#[test]
fn commands_with_wrong_arguments_write_nothing() {
    let mut bot = new_bot();
    send(&mut bot, text_from(&alice(), 1, "/list bob"));
    send(&mut bot, text_from(&alice(), 2, "/del x"));
    send(&mut bot, text_from(&alice(), 3, "hello"));
    assert!(bot.controller.users().is_empty());
}

#[test]
fn press_with_a_bad_token_is_dropped() {
    let mut bot = new_bot();
    let shown = Message { id: 5, chat_id: 1, from: None, text: None, forward: None };
    let press = CallbackQuery {
        id: String::from("cb"),
        message: Some(shown),
        data: Some(String::from("!page one @bob 2")),
    };
    let h = bot.callback_handler(&press, BOT_NAME);
    assert!(h.outputs.is_empty());
    assert_eq!(h.failure, Some(Failure::Token(ParseError::IncorrectFormat)));
}

#[test]
fn press_without_message_or_data_does_nothing() {
    let mut bot = new_bot();
    let no_data = CallbackQuery {
        id: String::from("cb"),
        message: Some(Message { id: 5, chat_id: 1, from: None, text: None, forward: None }),
        data: None,
    };
    let h = bot.callback_handler(&no_data, BOT_NAME);
    assert!(h.outputs.is_empty());
    assert_eq!(h.failure, None);
    let no_message = CallbackQuery {
        id: String::from("cb"),
        message: None,
        data: Some(String::from("!page 1 @bob 2")),
    };
    let h2 = bot.callback_handler(&no_message, BOT_NAME);
    assert!(h2.outputs.is_empty());
    let dummy = CallbackQuery {
        id: String::from("cb"),
        message: Some(Message { id: 5, chat_id: 1, from: None, text: None, forward: None }),
        data: Some(String::from("!default")),
    };
    let h3 = bot.callback_handler(&dummy, BOT_NAME);
    assert!(h3.outputs.is_empty());
    assert_eq!(h3.failure, None);
}

#[test]
fn press_for_an_unknown_user_does_nothing() {
    let mut bot = new_bot();
    let press = CallbackQuery {
        id: String::from("cb"),
        message: Some(Message { id: 5, chat_id: 1, from: None, text: None, forward: None }),
        data: Some(String::from("!page 5 @ghost 0")),
    };
    let h = bot.callback_handler(&press, BOT_NAME);
    assert!(h.outputs.is_empty());
    assert_eq!(h.failure, None);
}

#[test]
fn search_answers_with_articles() {
    let mut bot = new_bot();
    send(&mut bot, forward_from(&alice(), &bob(), 1, "hello world"));
    let mut nameless = person(1003, "x");
    nameless.username = None;
    send(&mut bot, forward_from(&alice(), &nameless, 2, "hello moon"));
    send(&mut bot, forward_from(&alice(), &bob(), 3, "bye"));
    let q = InlineQuery { id: String::from("q1"), query: String::from("hello") };
    let h = bot.update_handler(&Update { id: 9, kind: UpdateKind::InlineQuery(q) }, BOT_NAME);
    assert_eq!(h.outputs.len(), 1);
    match &h.outputs[0] {
        Output::AnswerInlineQuery { id, results } => {
            assert_eq!(id, "q1");
            assert_eq!(results.len(), 2);
            assert_eq!(results[0].id, "1");
            assert_eq!(results[0].title, "hello world");
            assert_eq!(results[0].message_text, "*bob*: hello world");
            assert_eq!(results[0].description, "By: @bob");
            assert_eq!(results[1].id, "2");
            assert_eq!(results[1].message_text, "*First1003*: hello moon");
            assert_eq!(results[1].description, "By: First1003");
        },
        other => panic!("{:?}", other),
    }
}

#[test]
fn search_without_hits_answers_with_nothing() {
    let mut bot = new_bot();
    let q = InlineQuery { id: String::from("q1"), query: String::from("zzz") };
    let h = bot.inline_query_hander(&q);
    assert!(matches!(&h.outputs[0], Output::AnswerInlineQuery { results, .. } if results.is_empty()));
}

#[test]
fn other_updates_do_nothing() {
    let mut bot = new_bot();
    let h = bot.update_handler(&Update { id: 3, kind: UpdateKind::Other }, BOT_NAME);
    assert!(h.outputs.is_empty());
    assert_eq!(h.failure, None);
}

#[test]
fn full_store_drops_the_forward() {
    let mut bot = new_bot();
    bot.controller = saysthbot::db_controller::Controller::with_first_ids(i64::MAX, 1).unwrap();
    let h = send(&mut bot, forward_from(&alice(), &bob(), 1, "x"));
    assert!(h.outputs.is_empty());
    assert_eq!(h.failure, Some(Failure::Store(StoreError::Storage)));
    let m = send(&mut bot, text_from(&alice(), 2, "/mute"));
    assert!(m.outputs.is_empty());
    assert_eq!(m.failure, Some(Failure::Store(StoreError::Storage)));
    let s = send(&mut bot, text_from(&alice(), 3, "/setup"));
    assert_eq!(s.failure, Some(Failure::Store(StoreError::Storage)));
    assert!(bot.controller.users().is_empty());
}

#[test]
fn full_store_still_answers_what_needs_no_account() {
    let mut bot = new_bot();
    bot.controller = saysthbot::db_controller::Controller::with_first_ids(i64::MAX, 1).unwrap();
    let help = send(&mut bot, text_from(&alice(), 4, "/help"));
    assert!(matches!(&help.outputs[0], Output::SendReply { text: BotText::Help, .. }));
    let about = send(&mut bot, text_from(&alice(), 4, "/about"));
    assert!(matches!(&about.outputs[0], Output::SendReply { text: BotText::About, .. }));
    let del = send(&mut bot, text_from(&alice(), 4, "/del 1"));
    assert!(matches!(&del.outputs[0], Output::SendReply { text: BotText::Deleted, .. }));
    let list = send(&mut bot, text_from(&alice(), 4, "/list"));
    assert_eq!(list.outputs.len(), 1);
    assert!(matches!(&list.outputs[0], Output::SendReply { text: BotText::Loading, .. }));
    for h in [&help, &about, &del, &list] {
        assert_eq!(h.failure, None);
    }
    assert!(bot.controller.users().is_empty());
}

#[test]
fn one_id_left_is_not_enough_for_sender_and_author() {
    let mut bot = new_bot();
    bot.controller =
        saysthbot::db_controller::Controller::with_first_ids(i64::MAX - 1, 1).unwrap();
    let h = send(&mut bot, forward_from(&alice(), &bob(), 1, "x"));
    assert!(h.outputs.is_empty());
    assert_eq!(h.failure, Some(Failure::Store(StoreError::Storage)));
    assert!(bot.controller.users().is_empty());
    assert!(bot.controller.records().is_empty());
    let own = send(&mut bot, forward_from(&bob(), &bob(), 2, "x"));
    assert_eq!(own.failure, None);
    assert_eq!(bot.controller.users().len(), 1);
    assert_eq!(bot.controller.records().len(), 1);
}

#[test]
fn pages_of_a_name_with_a_space_can_be_turned() {
    let mut bot = new_bot();
    let mut author = person(1005, "x");
    author.username = None;
    author.first_name = String::from("@Foo Bar");
    for i in 1..=26 {
        send(&mut bot, forward_from(&alice(), &author, i, &format!("text {}", i)));
    }
    let h = send(&mut bot, text_from(&alice(), 500, "/list @Foo Bar"));
    let token = match &h.outputs[1] {
        Output::EditReply { keyboard, .. } => keyboard[0].callback_data.clone(),
        other => panic!("{:?}", other),
    };
    assert_eq!(token, "!page 500 @Foo Bar 1");
    let press = CallbackQuery {
        id: String::from("cb"),
        message: Some(Message { id: 501, chat_id: 1001, from: None, text: None, forward: None }),
        data: Some(token),
    };
    let next = bot.callback_handler(&press, BOT_NAME);
    assert_eq!(next.failure, None);
    match &next.outputs[0] {
        Output::EditMessage { body, .. } => assert_eq!(body, "```\n26\t\t\t\ttext 26\n```\n2/2"),
        other => panic!("{:?}", other),
    }
}
