use vstd::prelude::*;
use crate::decimal::{
    decimal, is_power_of_ten, lemma_digits_len, lemma_parse_decimal, parse_bounded, parse_i32,
    parse_usize, push_decimal, push_digits,
};
use crate::parse::{
    addressed_elsewhere, command_name, head_addressed_elsewhere, head_args, head_word,
    split_head, ParseError,
};
use crate::text::{
    chars_eq, find_char, find_last_char, first_index, from_chars, last_index,
    lemma_first_index, lemma_last_index, push_str, slice_chars, to_chars,
};

verus! {

/// What a navigation button carries.
#[derive(Debug)]
pub enum CallbackCommands {
    /// Show `page` of the records of `username`, in answer to the message `msg_id`.
    Page { msg_id: i32, username: String, page: usize },
    /// Nothing to do.
    Default,
}

/// What a `CallbackCommands` holds, as mathematical values.
pub enum CallbackView {
    Page { msg_id: int, username: Seq<char>, page: int },
    Default,
}

impl View for CallbackCommands {
    type V = CallbackView;

    open spec fn view(&self) -> CallbackView {
        match self {
            CallbackCommands::Page { msg_id, username, page } => CallbackView::Page {
                msg_id: *msg_id as int,
                username: username@,
                page: *page as int,
            },
            CallbackCommands::Default => CallbackView::Default,
        }
    }
}

impl Default for CallbackCommands {
    fn default() -> (r: Self)
        ensures
            r@ == CallbackView::Default,
    {
        CallbackCommands::Default
    }
}

/// The token that asks for `page` of the records of `username`.
pub open spec fn page_token(msg_id: int, username: Seq<char>, page: int) -> Seq<char> {
    "!page "@ + decimal(msg_id) + seq![' '] + username + seq![' '] + decimal(page)
}

/// A page token is no longer than its parts: the command, the two numbers, the user name and
/// three spaces. With a message id and a page such as the command can hold, that is the
/// length of the user name and 39 characters at most.
pub proof fn lemma_page_token_len(msg_id: int, username: Seq<char>, page: int)
    requires
        i32::MIN <= msg_id <= i32::MAX,
        0 <= page <= u64::MAX,
    ensures
        page_token(msg_id, username, page).len() == 8 + decimal(msg_id).len() + username.len()
            + decimal(page).len(),
        page_token(msg_id, username, page).len() <= 39 + username.len(),
{
    reveal_strlit("!page ");
    reveal_with_fuel(is_power_of_ten, 21);
    assert(is_power_of_ten(10_000_000_000, 10));
    assert(is_power_of_ten(100_000_000_000_000_000_000, 20));
    if msg_id < 0 {
        lemma_digits_len((-msg_id) as nat, 10, 10_000_000_000);
    } else {
        lemma_digits_len(msg_id as nat, 10, 10_000_000_000);
    }
    lemma_digits_len(page as nat, 20, 100_000_000_000_000_000_000);
}

/// The token that stands for `c`.
pub open spec fn encoded(c: CallbackView) -> Seq<char> {
    match c {
        CallbackView::Page { msg_id, username, page } => page_token(msg_id, username, page),
        CallbackView::Default => "!default"@,
    }
}

/// What the arguments of `!page` mean: a message id, a space, a user name, a space and a page.
/// The user name is what stands between the first space and the last, and may hold spaces
/// itself.
pub open spec fn decoded_page(args: Seq<char>) -> Result<CallbackView, ParseError> {
    let a = first_index(args, ' ');
    match parse_bounded(args.subrange(0, a), true, i32::MIN as int, i32::MAX as int) {
        None => Err(ParseError::IncorrectFormat),
        Some(msg_id) => if a == args.len() {
            Err(ParseError::TooFewArguments)
        } else {
            let rest = args.subrange(a + 1, args.len() as int);
            let b = last_index(rest, ' ');
            if b < 0 {
                Err(ParseError::TooFewArguments)
            } else {
                match parse_bounded(
                    rest.subrange(b + 1, rest.len() as int),
                    false,
                    0,
                    usize::MAX as int,
                ) {
                    None => Err(ParseError::IncorrectFormat),
                    Some(page) => Ok(
                        CallbackView::Page { msg_id, username: rest.subrange(0, b), page },
                    ),
                }
            }
        },
    }
}

/// What a token means to the bot called `bot_name`.
pub open spec fn decoded(
    token: Seq<char>,
    bot_name: Seq<char>,
) -> Result<CallbackView, ParseError> {
    let word = head_word(token);
    if addressed_elsewhere(word, bot_name) {
        Err(ParseError::WrongBotName)
    } else if command_name(word) == "!page"@ {
        decoded_page(head_args(token))
    } else if command_name(word) == "!default"@ {
        Ok(CallbackView::Default)
    } else {
        Err(ParseError::UnknownCommand)
    }
}

/// The view of what `decode` returned.
pub open spec fn decode_view(r: Result<CallbackCommands, ParseError>) -> Result<
    CallbackView,
    ParseError,
> {
    match r {
        Ok(c) => Ok(c@),
        Err(e) => Err(e),
    }
}

/// The token that asks for `page` of the records of `username`, in answer to the message
/// `msg_id`.
pub fn encode_page(msg_id: i32, username: &str, page: usize) -> (token: String)
    ensures
        token@ == page_token(msg_id as int, username@, page as int),
{
    let mut out: Vec<char> = Vec::new();
    push_str(&mut out, "!page ");
    push_decimal(&mut out, msg_id as i64);
    out.push(' ');
    push_str(&mut out, username);
    out.push(' ');
    push_digits(&mut out, page as u128);
    proof {
        let e = Seq::<char>::empty();
        assert(e + "!page "@ =~= "!page "@);
        assert(out@ =~= page_token(msg_id as int, username@, page as int));
    }
    from_chars(&out)
}

fn decode_page(args: &Vec<char>) -> (r: Result<CallbackCommands, ParseError>)
    ensures
        decode_view(r) == decoded_page(args@),
{
    let a = find_char(args, 0, args.len(), ' ');
    assert(args@.subrange(0, args.len() as int) =~= args@);
    let msg_id = match parse_i32(args, 0, a) {
        Some(v) => v,
        None => {
            return Err(ParseError::IncorrectFormat);
        },
    };
    if a == args.len() {
        return Err(ParseError::TooFewArguments);
    }
    let rest = slice_chars(args, a + 1, args.len());
    let b = match find_last_char(&rest, ' ') {
        Some(b) => b,
        None => {
            return Err(ParseError::TooFewArguments);
        },
    };
    let name = slice_chars(&rest, 0, b);
    let page = match parse_usize(&rest, b + 1, rest.len()) {
        Some(v) => v,
        None => {
            return Err(ParseError::IncorrectFormat);
        },
    };
    Ok(CallbackCommands::Page { msg_id, username: from_chars(&name), page })
}

impl CallbackCommands {
    /// The token that stands for `self`.
    pub fn encode(&self) -> (token: String)
        ensures
            token@ == encoded(self@),
    {
        match self {
            CallbackCommands::Page { msg_id, username, page } => encode_page(
                *msg_id,
                username.as_str(),
                *page,
            ),
            CallbackCommands::Default => "!default".to_owned(),
        }
    }

    /// Reads a token, as the bot called `bot_name`.
    pub fn decode(token: &str, bot_name: &str) -> (r: Result<CallbackCommands, ParseError>)
        ensures
            decode_view(r) == decoded(token@, bot_name@),
    {
        let chars = to_chars(token);
        let bot = to_chars(bot_name);
        let head = split_head(&chars);
        if head_addressed_elsewhere(&head, &bot) {
            return Err(ParseError::WrongBotName);
        }
        let page_name = to_chars("!page");
        let default_name = to_chars("!default");
        if chars_eq(&head.name, &page_name) {
            decode_page(&head.args)
        } else if chars_eq(&head.name, &default_name) {
            Ok(CallbackCommands::Default)
        } else {
            Err(ParseError::UnknownCommand)
        }
    }
}

/// A token that was made from a command is read back as that command, whatever the bot is
/// called and whatever the user name holds: for a page request, where the message id and the
/// page are such numbers as the command can hold.
pub proof fn lemma_decode_encoded(c: CallbackView, bot_name: Seq<char>)
    requires
        c matches CallbackView::Page { msg_id, username, page } ==> {
            &&& i32::MIN <= msg_id <= i32::MAX
            &&& 0 <= page <= usize::MAX
        },
    ensures
        decoded(encoded(c), bot_name) == Ok::<CallbackView, ParseError>(c),
{
    reveal_strlit("!page ");
    reveal_strlit("!page");
    reveal_strlit("!default");
    match c {
        CallbackView::Default => {
            let token = "!default"@;
            lemma_first_index(token, ' ', 8);
            assert(head_word(token) =~= token);
            lemma_first_index(token, '@', 8);
            assert(command_name(token) =~= token);
            assert(token.len() != "!page"@.len());
        },
        CallbackView::Page { msg_id, username, page } => {
            let dm = decimal(msg_id);
            let dp = decimal(page);
            let token = page_token(msg_id, username, page);
            lemma_parse_decimal(msg_id);
            lemma_parse_decimal(page);
            lemma_first_index(token, ' ', 5);
            let word = head_word(token);
            assert(word =~= "!page"@);
            lemma_first_index(word, '@', 5);
            assert(command_name(word) =~= "!page"@);
            let args = head_args(token);
            assert(args =~= dm + seq![' '] + username + seq![' '] + dp);
            lemma_first_index(args, ' ', dm.len() as int);
            assert(args.subrange(0, dm.len() as int) =~= dm);
            let rest = args.subrange(dm.len() as int + 1, args.len() as int);
            assert(rest =~= username + seq![' '] + dp);
            assert forall|j: int| username.len() < j < rest.len() implies rest[j] != ' ' by {
                assert(rest[j] == dp[j - username.len() - 1]);
            }
            lemma_last_index(rest, ' ', username.len() as int);
            assert(rest.subrange(0, username.len() as int) =~= username);
            assert(rest.subrange(username.len() as int + 1, rest.len() as int) =~= dp);
        },
    }
}

} // verus!
