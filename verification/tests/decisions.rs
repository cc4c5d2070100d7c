use saysthbot::bot::{article, articles};
use saysthbot::commands::Commands;
use saysthbot::db_controller::kept_username;
use saysthbot::messages::BotText;
use saysthbot::models::{Record, User};
use saysthbot::pagination::clamp_page;
use saysthbot::telegram::{Failure, Handled, Message, Output};
use saysthbot::store::StoreError;

fn record_by(id: i64, text: &str, author: Option<&str>) -> (Record, Option<User>) {
    (
        Record { id, user_id: 1, message: String::from(text) },
        Some(User { id: 1, tg_uid: 10, username: author.map(String::from), notify: true }),
    )
}

#[test]
fn page_is_clamped_to_the_last() {
    assert_eq!(clamp_page(0, 1), 0);
    assert_eq!(clamp_page(5, 1), 0);
    assert_eq!(clamp_page(1, 2), 1);
    assert_eq!(clamp_page(2, 2), 1);
    assert_eq!(clamp_page(usize::MAX, 7), 6);
    assert_eq!(clamp_page(3, usize::MAX), 3);
}

#[test]
fn empty_name_is_not_kept() {
    assert_eq!(kept_username(""), None);
    assert_eq!(kept_username("@bob"), Some(String::from("@bob")));
    assert_eq!(kept_username(" "), Some(String::from(" ")));
}

#[test]
fn offered_commands_are_listed_with_their_slash() {
    let commands = Commands::bot_commands();
    let names: Vec<&str> = commands.iter().map(|c| c.command.as_str()).collect();
    assert_eq!(names, vec!["/help", "/about", "/mute", "/unmute", "/list", "/del", "/setup"]);
    assert_eq!(commands[0].description, "显示帮助信息");
    assert_eq!(commands[4].description, "列出已记录的内容");
    assert_eq!(commands[6].description, "注册");
    assert!(commands.iter().all(|c| !c.description.is_empty()));
}

#[test]
fn article_shows_the_author_without_at() {
    let a = article(&record_by(12, "hello", Some("@bob"))).unwrap();
    assert_eq!(a.id, "12");
    assert_eq!(a.title, "hello");
    assert_eq!(a.message_text, "*bob*: hello");
    assert_eq!(a.description, "By: @bob");
    let many = article(&record_by(-3, "x", Some("@@@b@b"))).unwrap();
    assert_eq!(many.id, "-3");
    assert_eq!(many.message_text, "*b@b*: x");
    assert_eq!(many.description, "By: @@@b@b");
    let only = article(&record_by(1, "x", Some("@@"))).unwrap();
    assert_eq!(only.message_text, "**: x");
}

#[test]
fn record_without_named_author_makes_no_article() {
    assert!(article(&record_by(1, "x", None)).is_none());
    let orphan = (Record { id: 1, user_id: 1, message: String::from("x") }, None);
    assert!(article(&orphan).is_none());
    let rows = vec![
        record_by(1, "a", Some("@a")),
        record_by(2, "b", None),
        record_by(3, "c", Some("c")),
    ];
    let made = articles(&rows);
    let ids: Vec<&str> = made.iter().map(|a| a.id.as_str()).collect();
    assert_eq!(ids, vec!["1", "3"]);
    assert!(articles(&vec![]).is_empty());
}

#[test]
fn handled_keeps_outputs_in_order() {
    let m = Message { id: 4, chat_id: 9, from: None, text: None, forward: None };
    assert!(Handled::quiet().outputs.is_empty());
    assert_eq!(Handled::quiet().failure, None);
    let failed = Handled::failed(Failure::Store(StoreError::Duplicate));
    assert!(failed.outputs.is_empty());
    assert_eq!(failed.failure, Some(Failure::Store(StoreError::Duplicate)));
    let one = Handled::one(m.reply(BotText::Help));
    assert_eq!(one.outputs.len(), 1);
    assert_eq!(one.failure, None);
    let two = Handled::two(m.reply(BotText::Help), m.answer(BotText::About));
    assert!(matches!(
        &two.outputs[0],
        Output::SendReply { chat_id: 9, message_id: 4, text: BotText::Help }
    ));
    assert!(matches!(&two.outputs[1], Output::SendMessage { chat_id: 9, text: BotText::About }));
}
