use saysthbot::callback_commands::{encode_page, CallbackCommands};
use saysthbot::parse::ParseError;

fn page_of(r: Result<CallbackCommands, ParseError>) -> (i32, String, usize) {
    match r {
        Ok(CallbackCommands::Page { msg_id, username, page }) => (msg_id, username, page),
        other => panic!("no page: {:?}", other),
    }
}

#[test]
fn page_token_is_written_with_spaces() {
    assert_eq!(encode_page(7, "@bob", 1), "!page 7 @bob 1");
    assert_eq!(encode_page(0, "@a", 0), "!page 0 @a 0");
    assert_eq!(encode_page(-12, "x", 340), "!page -12 x 340");
    assert_eq!(encode_page(i32::MAX, "@bob", usize::MAX),
        format!("!page {} @bob {}", i32::MAX, usize::MAX));
    assert_eq!(encode_page(i32::MIN, "@bob", 10), "!page -2147483648 @bob 10");
}

#[test]
fn encode_of_the_enum_matches_the_token() {
    let c = CallbackCommands::Page { msg_id: 55, username: String::from("@alice"), page: 3 };
    assert_eq!(c.encode(), "!page 55 @alice 3");
    assert_eq!(CallbackCommands::Default.encode(), "!default");
}

#[test]
fn default_is_the_default() {
    assert!(matches!(CallbackCommands::default(), CallbackCommands::Default));
}

#[test]
fn token_round_trips() {
    let cases: Vec<(i32, &str, usize)> = vec![
        (1, "@alice", 0),
        (7, "@bob", 1),
        (i32::MAX, "@some_long_handle_0123456789", usize::MAX),
        (i32::MIN, "@x", 12345),
        (-1, "", 9),
        (42, "first@name", 2),
        (5, "@First Name", 1),
        (5, " ", 0),
        (5, "a  b ", 3),
        (5, "1 2 3", 4),
    ];
    for (msg_id, username, page) in cases {
        let token = encode_page(msg_id, username, page);
        let back = page_of(CallbackCommands::decode(&token, "ssthbot"));
        assert_eq!(back, (msg_id, String::from(username), page));
    }
}

#[test]
fn enum_round_trips_through_its_token() {
    let c = CallbackCommands::Page { msg_id: 9, username: String::from("@carol"), page: 4 };
    let back = page_of(CallbackCommands::decode(&c.encode(), "anybot"));
    assert_eq!(back, (9, String::from("@carol"), 4));
    let d = CallbackCommands::decode(&CallbackCommands::Default.encode(), "anybot");
    assert!(matches!(d, Ok(CallbackCommands::Default)));
}

#[test]
fn token_may_address_this_bot_in_any_case() {
    let back = page_of(CallbackCommands::decode("!page@SsthBot 3 @bob 2", "ssthbot"));
    assert_eq!(back, (3, String::from("@bob"), 2));
}

#[test]
fn token_for_another_bot_is_refused() {
    let r = CallbackCommands::decode("!page@otherbot 3 @bob 2", "ssthbot");
    assert!(matches!(r, Err(ParseError::WrongBotName)));
}

#[test]
fn unknown_token_is_refused() {
    assert!(matches!(CallbackCommands::decode("!jump 1 @bob 2", "b"), Err(ParseError::UnknownCommand)));
    assert!(matches!(CallbackCommands::decode("", "b"), Err(ParseError::UnknownCommand)));
    assert!(matches!(CallbackCommands::decode("page 1 @bob 2", "b"), Err(ParseError::UnknownCommand)));
    assert!(matches!(CallbackCommands::decode("!PAGE 1 @bob 2", "b"), Err(ParseError::UnknownCommand)));
}

#[test]
fn token_with_too_few_arguments_is_refused() {
    assert!(matches!(CallbackCommands::decode("!page 1", "b"), Err(ParseError::TooFewArguments)));
    assert!(matches!(CallbackCommands::decode("!page 1 @bob", "b"), Err(ParseError::TooFewArguments)));
}

#[test]
fn user_name_is_what_stands_between_first_and_last_space() {
    let back = page_of(CallbackCommands::decode("!page 1 @bob 2 3", "b"));
    assert_eq!(back, (1, String::from("@bob 2"), 3));
    let empty = page_of(CallbackCommands::decode("!page 1  3", "b"));
    assert_eq!(empty, (1, String::new(), 3));
    assert!(matches!(
        CallbackCommands::decode("!page 1 @bob 2 ", "b"),
        Err(ParseError::IncorrectFormat)
    ));
}

#[test]
fn ill_formed_tokens_are_refused() {
    for token in ["garbage", "!page 7 @bob", "!page 7 @bob -1", "!page x @bob 1", "!page", "!"] {
        assert!(CallbackCommands::decode(token, "b").is_err(), "{}", token);
    }
}

#[test]
fn token_with_a_bad_number_is_refused() {
    assert!(matches!(CallbackCommands::decode("!page", "b"), Err(ParseError::IncorrectFormat)));
    assert!(matches!(CallbackCommands::decode("!page x @bob 2", "b"), Err(ParseError::IncorrectFormat)));
    assert!(matches!(CallbackCommands::decode("!page 1 @bob x", "b"), Err(ParseError::IncorrectFormat)));
    assert!(matches!(CallbackCommands::decode("!page 1 @bob -2", "b"), Err(ParseError::IncorrectFormat)));
    assert!(matches!(CallbackCommands::decode("!page 1 @bob ", "b"), Err(ParseError::IncorrectFormat)));
    assert!(matches!(
        CallbackCommands::decode("!page 2147483648 @bob 2", "b"),
        Err(ParseError::IncorrectFormat)
    ));
    assert!(matches!(
        CallbackCommands::decode("!page 1 @bob 99999999999999999999999999", "b"),
        Err(ParseError::IncorrectFormat)
    ));
    assert!(matches!(CallbackCommands::decode("!page  1 @bob 2", "b"), Err(ParseError::IncorrectFormat)));
}

#[test]
fn token_numbers_may_carry_a_plus_sign() {
    let back = page_of(CallbackCommands::decode("!page +5 @bob +2", "b"));
    assert_eq!(back, (5, String::from("@bob"), 2));
    let zeros = page_of(CallbackCommands::decode("!page 007 @bob 000", "b"));
    assert_eq!(zeros, (7, String::from("@bob"), 0));
}
