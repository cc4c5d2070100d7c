use saysthbot::commands::{
    classify, is_command, list_command_parser, Classified, Commands, ValidationError,
};
use saysthbot::telegram::ChatUser;

fn human(id: i64, username: Option<&str>) -> ChatUser {
    ChatUser {
        id,
        is_bot: false,
        first_name: String::from("First"),
        username: username.map(String::from),
    }
}

fn robot() -> ChatUser {
    ChatUser { id: 9, is_bot: true, first_name: String::from("R"), username: Some(String::from("rbot")) }
}

fn command(text: &str) -> Commands {
    match classify(text, &human(1, Some("alice")), "ssthbot") {
        Classified::Command(c) => c,
        other => panic!("no command: {:?}", other),
    }
}

#[test]
fn help_and_about_are_recognized() {
    assert!(matches!(command("/help"), Commands::Help));
    assert!(matches!(command("/about"), Commands::About));
}

#[test]
fn mute_and_unmute_are_recognized() {
    assert!(matches!(command("/mute"), Commands::Mute));
    assert!(matches!(command("/unmute"), Commands::Unmute));
}

#[test]
fn setup_is_also_called_start() {
    assert!(matches!(command("/setup"), Commands::Setup));
    assert!(matches!(command("/start"), Commands::Setup));
}

#[test]
fn command_word_ignores_case_and_prefix() {
    assert!(matches!(command("/ABOUT"), Commands::About));
    assert!(matches!(command("/MuTe"), Commands::Mute));
    assert!(matches!(command("about"), Commands::About));
    assert!(matches!(command("Setup"), Commands::Setup));
    assert!(matches!(command("/about extra words"), Commands::About));
}

#[test]
fn unknown_word_falls_back_to_help() {
    assert!(matches!(command("/nonsense"), Commands::Help));
    assert!(matches!(command("hello"), Commands::Help));
    assert!(matches!(command("/"), Commands::Help));
    assert!(matches!(command("//about"), Commands::Help));
    assert!(matches!(command("/lists"), Commands::Help));
}

#[test]
fn default_command_is_help() {
    assert!(matches!(Commands::default(), Commands::Help));
}

#[test]
fn text_without_first_word_is_no_command() {
    let a = human(1, Some("alice"));
    assert!(matches!(classify("", &a, "ssthbot"), Classified::NotACommand));
    assert!(matches!(classify(" /help", &a, "ssthbot"), Classified::NotACommand));
}

#[test]
fn command_for_another_bot_is_no_command() {
    let a = human(1, Some("alice"));
    assert!(matches!(classify("/help@otherbot", &a, "ssthbot"), Classified::NotACommand));
    assert!(matches!(classify("/help@ssthbot", &a, "ssthbot"), Classified::Command(Commands::Help)));
    assert!(matches!(classify("/about@SSTHBOT", &a, "ssthbot"), Classified::Command(Commands::About)));
    assert!(matches!(classify("/about@ssthbot@x", &a, "ssthbot"), Classified::Command(Commands::About)));
}

#[test]
fn bot_sender_is_ignored() {
    assert!(matches!(classify("/help", &robot(), "ssthbot"), Classified::Ignored));
    assert!(matches!(classify("/del 1", &robot(), "ssthbot"), Classified::Ignored));
    assert!(matches!(classify("", &robot(), "ssthbot"), Classified::Ignored));
}

#[test]
fn list_without_argument_is_the_senders_own() {
    match command("/list") {
        Commands::List { username } => assert_eq!(username, "@alice"),
        other => panic!("{:?}", other),
    }
    match command("/list   ") {
        Commands::List { username } => assert_eq!(username, "@alice"),
        other => panic!("{:?}", other),
    }
    match command("/list \t\u{3000}") {
        Commands::List { username } => assert_eq!(username, "@alice"),
        other => panic!("{:?}", other),
    }
}

#[test]
fn list_with_handle_is_that_users() {
    match command("/list @bob") {
        Commands::List { username } => assert_eq!(username, "@bob"),
        other => panic!("{:?}", other),
    }
    match command("/LIST @Bob_1") {
        Commands::List { username } => assert_eq!(username, "@Bob_1"),
        other => panic!("{:?}", other),
    }
}

#[test]
fn list_handle_without_at_is_rejected() {
    let a = human(1, Some("alice"));
    assert!(matches!(
        classify("/list bob", &a, "ssthbot"),
        Classified::Invalid(ValidationError::MissingAt)
    ));
    assert!(matches!(
        classify("/list me", &a, "ssthbot"),
        Classified::Invalid(ValidationError::MissingAt)
    ));
    assert!(matches!(
        classify("/list  @bob", &a, "ssthbot"),
        Classified::Invalid(ValidationError::MissingAt)
    ));
}

#[test]
fn list_without_argument_needs_a_handle_of_the_sender() {
    let nameless = human(2, None);
    assert!(matches!(
        classify("/list", &nameless, "ssthbot"),
        Classified::Invalid(ValidationError::MissingAt)
    ));
    assert!(matches!(
        classify("/list @bob", &nameless, "ssthbot"),
        Classified::Command(Commands::List { .. })
    ));
}

#[test]
fn list_parser_alone() {
    let a = human(1, Some("alice"));
    let none: Vec<char> = vec![];
    assert_eq!(list_command_parser(&none, &a), Ok(String::from("@alice")));
    let bob: Vec<char> = "@bob".chars().collect();
    assert_eq!(list_command_parser(&bob, &a), Ok(String::from("@bob")));
    let bare: Vec<char> = "bob".chars().collect();
    assert_eq!(list_command_parser(&bare, &a), Err(ValidationError::MissingAt));
}

#[test]
fn delete_takes_a_number() {
    assert!(matches!(command("/del 42"), Commands::Del { id: 42 }));
    assert!(matches!(command("/delete 42"), Commands::Del { id: 42 }));
    assert!(matches!(command("/del -7"), Commands::Del { id: -7 }));
    assert!(matches!(command("/del +7"), Commands::Del { id: 7 }));
    assert!(matches!(command("/del 0042"), Commands::Del { id: 42 }));
    assert!(matches!(command("/del 9223372036854775807"), Commands::Del { id: i64::MAX }));
    assert!(matches!(command("/del -9223372036854775808"), Commands::Del { id: i64::MIN }));
}

#[test]
fn delete_without_a_number_is_rejected() {
    let a = human(1, Some("alice"));
    for text in [
        "/del",
        "/del ",
        "/del abc",
        "/del 4 2",
        "/del 42 ",
        "/del  42",
        "/del 4x",
        "/del -",
        "/del +",
        "/del 9223372036854775808",
        "/del -9223372036854775809",
        "/del ٤٢",
    ] {
        assert!(
            matches!(classify(text, &a, "ssthbot"), Classified::Invalid(ValidationError::InvalidId)),
            "{}",
            text
        );
    }
}

#[test]
fn only_a_leading_slash_looks_like_a_command() {
    assert!(is_command("/help"));
    assert!(is_command("/"));
    assert!(!is_command("help"));
    assert!(!is_command(" /help"));
    assert!(!is_command(""));
}
