use saysthbot::messages::{
    BotText, BOT_ABOUT, BOT_HELP, BOT_TEXT_DELETED, BOT_TEXT_FORWARDED_ONLY, BOT_TEXT_LOADING,
    BOT_TEXT_MESSAGE_ONLY, BOT_TEXT_NO_BOT, BOT_TEXT_SHOULD_START_WITH_AT, BOT_TEXT_USER_ONLY,
    BOT_TEXT_WELCOME,
};

#[test]
fn fixed_texts_are_sent_as_they_are() {
    assert_eq!(BotText::MessageOnly.render().unwrap(), BOT_TEXT_MESSAGE_ONLY);
    assert_eq!(BotText::ForwardedOnly.render().unwrap(), BOT_TEXT_FORWARDED_ONLY);
    assert_eq!(BotText::UserOnly.render().unwrap(), BOT_TEXT_USER_ONLY);
    assert_eq!(BotText::NoBot.render().unwrap(), BOT_TEXT_NO_BOT);
    assert_eq!(BotText::Welcome.render().unwrap(), BOT_TEXT_WELCOME);
    assert_eq!(BotText::Help.render().unwrap(), BOT_HELP);
    assert_eq!(BotText::About.render().unwrap(), BOT_ABOUT);
    assert_eq!(BotText::Deleted.render().unwrap(), BOT_TEXT_DELETED);
    assert_eq!(BotText::Loading.render().unwrap(), BOT_TEXT_LOADING);
    assert_eq!(BotText::ShouldStartWithAt.render().unwrap(), BOT_TEXT_SHOULD_START_WITH_AT);
}

#[test]
fn noted_quotes_the_text() {
    let t = BotText::Noted { data: String::from("hello") };
    assert_eq!(t.render().unwrap(), "✅ `hello` 已记录");
}

#[test]
fn noted_takes_any_text_as_it_is() {
    let t = BotText::Noted { data: String::from("{x} }} {{ 你好 `") };
    assert_eq!(t.render().unwrap(), "✅ `{x} }} {{ 你好 `` 已记录");
    let empty = BotText::Noted { data: String::new() };
    assert_eq!(empty.render().unwrap(), "✅ `` 已记录");
}

#[test]
fn mute_status_names_the_state() {
    assert_eq!(BotText::MuteStatus { enabled: true }.render().unwrap(), "提醒状态：✅ 开启");
    assert_eq!(BotText::MuteStatus { enabled: false }.render().unwrap(), "提醒状态：❎ 关闭");
}

#[test]
fn notice_names_the_sender_and_quotes_the_text() {
    let t = BotText::Notice {
        username: String::from("Alice"),
        user_id: 1001,
        data: String::from("hello"),
    };
    assert_eq!(
        t.render().unwrap(),
        "[Alice](tg://user?id=1001) 转发了你的 `hello`\n* 你可以使用 /list 命令查看自己或者他人被记录的信息\n* 你可以使用 /del 命令删除某条自己的信息\n* 你也可以使用 /mute 或者 /unmute 命令开启或者关闭提醒"
    );
}

#[test]
fn notice_writes_a_negative_id_with_its_sign() {
    let t = BotText::Notice { username: String::from("A"), user_id: i64::MIN, data: String::from("d") };
    assert!(t.render().unwrap().starts_with("[A](tg://user?id=-9223372036854775808) "));
}
