use saysthbot::bot::Bot;
use saysthbot::commands::CommandHandler;
use saysthbot::config::Args;
use saysthbot::messages::BotText;
use saysthbot::telegram::{ChatUser, ForwardedFrom, Message, Output};

fn fresh_bot() -> Bot {
    Bot::new(Args {
        debug: true,
        tgbot_token: String::from("t"),
        database_uri: String::from("d"),
        api_url: String::from("a"),
    })
}

fn human_called(id: i64, handle: &str) -> ChatUser {
    ChatUser { id, is_bot: false, first_name: format!("N{}", id), username: Some(String::from(handle)) }
}

fn said_by(sender: Option<ChatUser>, text: &str) -> Message {
    Message { id: 3, chat_id: 30, from: sender, text: Some(String::from(text)), forward: None }
}

fn only_reply(outputs: &Vec<Output>) -> &BotText {
    assert_eq!(outputs.len(), 1);
    match &outputs[0] {
        Output::SendReply { chat_id: 30, message_id: 3, text } => text,
        other => panic!("{:?}", other),
    }
}

#[test]
fn help_and_about_handlers_take_the_sender_in() {
    let mut bot = fresh_bot();
    let m = said_by(Some(human_called(1, "alice")), "/help");
    let h = CommandHandler::help_handler(&mut bot, &m);
    assert!(matches!(only_reply(&h.outputs), BotText::Help));
    let h = CommandHandler::about_handler(&mut bot, &m);
    assert!(matches!(only_reply(&h.outputs), BotText::About));
    assert_eq!(bot.controller.users().len(), 1);
    assert!(bot.config.debug);
}

#[test]
fn handlers_do_nothing_without_a_human_sender() {
    let mut bot = fresh_bot();
    let nobody = said_by(None, "/x");
    let mut robot = human_called(2, "r");
    robot.is_bot = true;
    let by_bot = said_by(Some(robot), "/x");
    for m in [&nobody, &by_bot] {
        assert!(CommandHandler::help_handler(&mut bot, m).outputs.is_empty());
        assert!(CommandHandler::about_handler(&mut bot, m).outputs.is_empty());
        assert!(CommandHandler::setup_handler(&mut bot, m).outputs.is_empty());
        assert!(CommandHandler::notify_handler(&mut bot, m, true).outputs.is_empty());
        assert!(CommandHandler::del_handler(&mut bot, m, 1).outputs.is_empty());
        assert!(CommandHandler::list_handler(&mut bot, m, "@a", 0).outputs.is_empty());
    }
    assert!(bot.controller.users().is_empty());
}

#[test]
fn setup_and_notify_handlers_write() {
    let mut bot = fresh_bot();
    let m = said_by(Some(human_called(1, "alice")), "/x");
    let h = CommandHandler::setup_handler(&mut bot, &m);
    assert!(matches!(only_reply(&h.outputs), BotText::Welcome));
    assert_eq!(bot.controller.get_user_notify(&1), Ok(true));
    let h = CommandHandler::notify_handler(&mut bot, &m, false);
    assert!(matches!(only_reply(&h.outputs), BotText::MuteStatus { enabled: false }));
    assert_eq!(bot.controller.get_user_notify(&1), Ok(false));
    let h = CommandHandler::notify_handler(&mut bot, &m, true);
    assert!(matches!(only_reply(&h.outputs), BotText::MuteStatus { enabled: true }));
    assert_eq!(bot.controller.get_user_notify(&1), Ok(true));
}

#[test]
fn del_and_list_handlers() {
    let mut bot = fresh_bot();
    let alice = || Some(human_called(1, "alice"));
    let forwarded = Message {
        forward: Some(ForwardedFrom::User(human_called(1, "alice"))),
        ..said_by(Some(human_called(2, "bob")), "quote")
    };
    let h = bot.forward_handler(&forwarded, "quote", &human_called(1, "alice"));
    assert_eq!(h.outputs.len(), 2);
    let m = said_by(alice(), "/list");
    let h = CommandHandler::list_handler(&mut bot, &m, "@alice", 4);
    assert_eq!(h.outputs.len(), 2);
    assert!(matches!(
        &h.outputs[1],
        Output::EditReply { chat_id: 30, body, keyboard } if body == "```\n1\t\t\t\tquote\n```\n1/1" && keyboard.is_empty()
    ));
    let shown = CommandHandler::record_msg_genrator(&bot, &m, "@alice", 0).unwrap();
    assert_eq!(shown.0, "```\n1\t\t\t\tquote\n```\n1/1");
    let h = CommandHandler::del_handler(&mut bot, &said_by(Some(human_called(2, "bob")), "/del 1"), 1);
    assert!(matches!(only_reply(&h.outputs), BotText::Deleted));
    assert_eq!(bot.controller.records().len(), 1);
    let h = CommandHandler::del_handler(&mut bot, &m, 1);
    assert!(matches!(only_reply(&h.outputs), BotText::Deleted));
    assert!(bot.controller.records().is_empty());
}

#[test]
fn message_handlers_route_by_kind() {
    let mut bot = fresh_bot();
    let no_text = Message { text: None, ..said_by(Some(human_called(1, "alice")), "") };
    assert!(matches!(only_reply(&bot.default_message_handler(&no_text).outputs), BotText::MessageOnly));
    assert!(matches!(only_reply(&bot.message_handler(&no_text, "bot").outputs), BotText::MessageOnly));
    let plain = said_by(Some(human_called(1, "alice")), "hello");
    assert!(matches!(
        only_reply(&bot.text_message_heandler(&plain, "hello", "bot").outputs),
        BotText::ForwardedOnly
    ));
    let about = said_by(Some(human_called(1, "alice")), "/about");
    assert!(matches!(only_reply(&bot.command_hanler(&about, "bot").outputs), BotText::About));
    assert!(matches!(
        only_reply(&bot.text_message_heandler(&about, "/about", "bot").outputs),
        BotText::About
    ));
    let other = said_by(Some(human_called(1, "alice")), "/about@other");
    assert!(bot.command_hanler(&other, "bot").outputs.is_empty());
}
