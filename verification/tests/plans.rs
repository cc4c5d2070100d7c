use saysthbot::db_controller::{PaginatedRecordData, StoreAnswer, StoreRequest};
use saysthbot::messages::BotText;
use saysthbot::models::{Record, User};
use saysthbot::plan::{
    callback_plan, command_plan, conclude, forward_plan, inline_plan, sender_of, update_plan,
    Plan, Then,
};
use saysthbot::store::StoreError;
use saysthbot::telegram::{
    CallbackQuery, ChatUser, Failure, ForwardedFrom, InlineQuery, Message, Output, Update,
    UpdateKind,
};

fn user(id: i64, handle: Option<&str>) -> ChatUser {
    ChatUser { id, is_bot: false, first_name: format!("F{}", id), username: handle.map(String::from) }
}

fn message_of(sender: Option<ChatUser>, text: &str) -> Message {
    Message { id: 7, chat_id: 70, from: sender, text: Some(String::from(text)), forward: None }
}

fn one_page() -> PaginatedRecordData {
    PaginatedRecordData {
        items_count: 1,
        pages_count: 1,
        current_page: 0,
        current_data: vec![(
            Record { id: 3, user_id: 1, message: String::from("hi") },
            Some(User { id: 1, tg_uid: 10, username: Some(String::from("@bob")), notify: true }),
        )],
    }
}

#[test]
fn forward_plan_asks_to_record_with_the_sender() {
    let m = message_of(Some(user(1, Some("alice"))), "hello");
    match forward_plan(&m, "hello", &user(2, None)) {
        Plan::Ask {
            request: StoreRequest::Record { from: Some(from), author, text },
            then: Then::Confirm { noted, notice },
        } => {
            assert_eq!((from.tg_uid, from.username.as_str()), (1, "@alice"));
            assert_eq!((author.tg_uid, author.username.as_str()), (2, "F2"));
            assert_eq!(text, "hello");
            assert!(matches!(noted, Output::SendReply { chat_id: 70, message_id: 7, .. }));
            assert!(matches!(notice, Some(Output::Notify { user_id: 2, .. })));
        },
        other => panic!("{:?}", other),
    }
}

#[test]
fn forward_plan_of_the_author_holds_no_notice() {
    let m = message_of(Some(user(2, Some("bob"))), "hello");
    match forward_plan(&m, "hello", &user(2, Some("bob"))) {
        Plan::Ask { then: Then::Confirm { notice, .. }, .. } => assert!(notice.is_none()),
        other => panic!("{:?}", other),
    }
    let nobody = message_of(None, "hello");
    match forward_plan(&nobody, "hello", &user(2, Some("bob"))) {
        Plan::Ask {
            request: StoreRequest::Record { from, .. },
            then: Then::Confirm { notice, .. },
        } => {
            assert!(from.is_none());
            assert!(notice.is_none());
        },
        other => panic!("{:?}", other),
    }
}

#[test]
fn command_plans_take_the_sender_in() {
    let alice = || Some(user(1, Some("alice")));
    assert!(matches!(
        command_plan(&message_of(alice(), "/help"), "bot"),
        Plan::Ask { request: StoreRequest::Meet { .. }, then: Then::Say { .. } }
    ));
    assert!(matches!(
        command_plan(&message_of(alice(), "/about"), "bot"),
        Plan::Ask { request: StoreRequest::Meet { .. }, then: Then::Say { .. } }
    ));
    assert!(matches!(
        command_plan(&message_of(alice(), "/start"), "bot"),
        Plan::Ask { request: StoreRequest::Register { .. }, then: Then::Say { .. } }
    ));
    assert!(matches!(
        command_plan(&message_of(alice(), "/mute"), "bot"),
        Plan::Ask { request: StoreRequest::SetNotify { enabled: false, .. }, .. }
    ));
    assert!(matches!(
        command_plan(&message_of(alice(), "/unmute"), "bot"),
        Plan::Ask { request: StoreRequest::SetNotify { enabled: true, .. }, .. }
    ));
    assert!(matches!(
        command_plan(&message_of(alice(), "/del 42"), "bot"),
        Plan::Ask { request: StoreRequest::Delete { id: 42, .. }, .. }
    ));
    match command_plan(&message_of(alice(), "/list"), "bot") {
        Plan::Ask {
            request: StoreRequest::Page { from: Some(from), username, page: 0 },
            then: Then::ShowPage { chat_id: 70, message_id: 7, .. },
        } => {
            assert_eq!(from.tg_uid, 1);
            assert_eq!(username, "@alice");
        },
        other => panic!("{:?}", other),
    }
}

#[test]
fn plans_that_ask_nothing() {
    assert!(matches!(command_plan(&message_of(None, "/help"), "bot"), Plan::Done(h) if h.outputs.is_empty()));
    let mut robot = user(1, Some("r"));
    robot.is_bot = true;
    assert!(matches!(command_plan(&message_of(Some(robot), "/help"), "bot"), Plan::Done(h) if h.outputs.is_empty()));
    let m = message_of(Some(user(1, Some("alice"))), "/list bob");
    assert!(matches!(command_plan(&m, "bot"), Plan::Done(h) if h.outputs.len() == 1));
    let plain = Update {
        id: 1,
        kind: UpdateKind::Message(message_of(Some(user(1, Some("alice"))), "hi")),
    };
    assert!(matches!(update_plan(&plain, "bot"), Plan::Done(h) if h.outputs.len() == 1));
    let mut channel = message_of(Some(user(1, Some("alice"))), "hi");
    channel.forward = Some(ForwardedFrom::Chat);
    let update = Update { id: 1, kind: UpdateKind::Message(channel) };
    assert!(matches!(update_plan(&update, "bot"), Plan::Done(h) if h.outputs.len() == 1));
    assert!(matches!(update_plan(&Update { id: 1, kind: UpdateKind::Other }, "bot"), Plan::Done(_)));
}

#[test]
fn sender_of_a_message_is_a_human() {
    assert!(sender_of(&message_of(None, "x")).is_none());
    let mut robot = user(1, Some("r"));
    robot.is_bot = true;
    assert!(sender_of(&message_of(Some(robot), "x")).is_none());
    assert_eq!(sender_of(&message_of(Some(user(5, None)), "x")).map(|u| u.id), Some(5));
}

#[test]
fn press_and_search_plans() {
    let press = CallbackQuery {
        id: String::from("cb"),
        message: Some(message_of(None, "page")),
        data: Some(String::from("!page 7 @bob 1")),
    };
    match callback_plan(&press, "bot") {
        Plan::Ask {
            request: StoreRequest::Page { from: None, username, page: 1 },
            then: Then::TurnPage { chat_id: 70, message_id: 7, callback_id, .. },
        } => {
            assert_eq!(username, "@bob");
            assert_eq!(callback_id, "cb");
        },
        other => panic!("{:?}", other),
    }
    let q = InlineQuery { id: String::from("q"), query: String::from("key") };
    match inline_plan(&q) {
        Plan::Ask { request: StoreRequest::Search { key_word }, then: Then::Articles { query_id } } => {
            assert_eq!(key_word, "key");
            assert_eq!(query_id, "q");
        },
        other => panic!("{:?}", other),
    }
}

#[test]
fn refusal_drops_whatever_was_planned() {
    let m = message_of(None, "x");
    let h = conclude(
        Then::Say { output: m.reply(BotText::Deleted) },
        StoreAnswer::Failed(StoreError::Duplicate),
    );
    assert!(h.outputs.is_empty());
    assert_eq!(h.failure, Some(Failure::Store(StoreError::Duplicate)));
    let h = conclude(Then::Articles { query_id: String::from("q") }, StoreAnswer::Failed(StoreError::Storage));
    assert_eq!(h.failure, Some(Failure::Store(StoreError::Storage)));
}

#[test]
fn answer_to_another_request_counts_as_failure() {
    let m = message_of(None, "x");
    let h = conclude(Then::Say { output: m.reply(BotText::Deleted) }, StoreAnswer::Recorded { notify: true });
    assert!(h.outputs.is_empty());
    assert_eq!(h.failure, Some(Failure::Store(StoreError::Storage)));
    let h = conclude(Then::Articles { query_id: String::from("q") }, StoreAnswer::Written);
    assert_eq!(h.failure, Some(Failure::Store(StoreError::Storage)));
    let h = conclude(
        Then::Confirm { noted: m.reply(BotText::Help), notice: None },
        StoreAnswer::Found(one_page()),
    );
    assert_eq!(h.failure, Some(Failure::Store(StoreError::Storage)));
}

#[test]
fn confirmation_and_notice_follow_the_answer() {
    let m = message_of(None, "x");
    let notice = || Some(Output::Notify { user_id: 2, text: BotText::Help });
    let h = conclude(
        Then::Confirm { noted: m.reply(BotText::Help), notice: notice() },
        StoreAnswer::Recorded { notify: true },
    );
    assert_eq!(h.outputs.len(), 2);
    assert!(matches!(&h.outputs[1], Output::Notify { user_id: 2, .. }));
    let h = conclude(
        Then::Confirm { noted: m.reply(BotText::Help), notice: notice() },
        StoreAnswer::Recorded { notify: false },
    );
    assert_eq!(h.outputs.len(), 1);
    let h = conclude(
        Then::Confirm { noted: m.reply(BotText::Help), notice: None },
        StoreAnswer::Recorded { notify: true },
    );
    assert_eq!(h.outputs.len(), 1);
    assert!(matches!(&h.outputs[0], Output::SendReply { .. }));
}

#[test]
fn pages_are_shown_or_turned() {
    let m = message_of(None, "x");
    let show = || Then::ShowPage {
        loading: m.reply(BotText::Loading),
        chat_id: 70,
        message_id: 7,
        username: String::from("@bob"),
    };
    let h = conclude(show(), StoreAnswer::Page(Some(one_page())));
    assert_eq!(h.outputs.len(), 2);
    assert!(matches!(
        &h.outputs[1],
        Output::EditReply { chat_id: 70, body, keyboard } if body == "```\n3\t\t\t\thi\n```\n1/1" && keyboard.is_empty()
    ));
    let h = conclude(show(), StoreAnswer::Page(None));
    assert_eq!(h.outputs.len(), 1);
    let turn = || Then::TurnPage {
        chat_id: 70,
        message_id: 7,
        username: String::from("@bob"),
        callback_id: String::from("cb"),
    };
    let h = conclude(turn(), StoreAnswer::Page(Some(one_page())));
    assert!(matches!(&h.outputs[0], Output::EditMessage { chat_id: 70, message_id: 7, .. }));
    assert!(matches!(&h.outputs[1], Output::AnswerCallbackQuery { id } if id == "cb"));
    let h = conclude(turn(), StoreAnswer::Page(None));
    assert!(h.outputs.is_empty());
    assert_eq!(h.failure, None);
    let h = conclude(Then::Articles { query_id: String::from("q") }, StoreAnswer::Found(one_page()));
    assert!(matches!(
        &h.outputs[0],
        Output::AnswerInlineQuery { id, results } if id == "q" && results.len() == 1
    ));
}
