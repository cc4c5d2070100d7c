use vstd::prelude::*;
use crate::text::{
    eq_ignore_ascii_case, find_char, first_index, same_ignoring_ascii_case, slice_chars,
};

verus! {

/// Why a text is not one of the commands.
#[derive(Debug, Clone, Copy, PartialEq, Eq, Structural)]
pub enum ParseError {
    /// An argument is missing.
    TooFewArguments,
    /// An argument is not of the form that the command wants.
    IncorrectFormat,
    /// The first word names no command.
    UnknownCommand,
    /// The command is addressed to another bot.
    WrongBotName,
}

/// The first word of `s`: what stands before its first space.
pub open spec fn head_word(s: Seq<char>) -> Seq<char> {
    s.subrange(0, first_index(s, ' '))
}

/// What follows the first space of `s`; nothing where `s` holds no space.
pub open spec fn head_args(s: Seq<char>) -> Seq<char> {
    let sp = first_index(s, ' ');
    if sp < s.len() {
        s.subrange(sp + 1, s.len() as int)
    } else {
        Seq::empty()
    }
}

/// The command in a first word: what stands before its first `@`.
pub open spec fn command_name(word: Seq<char>) -> Seq<char> {
    word.subrange(0, first_index(word, '@'))
}

/// The bot that a first word addresses: what stands between its first `@` and its second, or
/// its end.
pub open spec fn addressed_bot(word: Seq<char>) -> Option<Seq<char>> {
    let at = first_index(word, '@');
    if at < word.len() {
        let rest = word.subrange(at + 1, word.len() as int);
        Some(rest.subrange(0, first_index(rest, '@')))
    } else {
        None
    }
}

/// Whether a first word addresses a bot other than `bot_name`; the case of ASCII letters does
/// not count.
pub open spec fn addressed_elsewhere(word: Seq<char>, bot_name: Seq<char>) -> bool {
    match addressed_bot(word) {
        Some(name) => !same_ignoring_ascii_case(name, bot_name),
        None => false,
    }
}

/// A text taken apart at its first space and, before that, at its first `@`.
pub struct Head {
    /// The command, with its prefix.
    pub name: Vec<char>,
    /// The bot that the command addresses, if it names one.
    pub bot: Option<Vec<char>>,
    /// What follows the first space.
    pub args: Vec<char>,
}

/// Takes `s` apart.
pub fn split_head(s: &Vec<char>) -> (h: Head)
    ensures
        h.name@ == command_name(head_word(s@)),
        h.args@ == head_args(s@),
        match h.bot {
            Some(b) => addressed_bot(head_word(s@)) == Some(b@),
            None => addressed_bot(head_word(s@)) is None,
        },
{
    let sp = find_char(s, 0, s.len(), ' ');
    assert(s@.subrange(0, s.len() as int) =~= s@);
    let word = slice_chars(s, 0, sp);
    let args = if sp < s.len() {
        slice_chars(s, sp + 1, s.len())
    } else {
        Vec::new()
    };
    let at = find_char(&word, 0, word.len(), '@');
    assert(word@.subrange(0, word.len() as int) =~= word@);
    let name = slice_chars(&word, 0, at);
    let bot = if at < word.len() {
        let rest = slice_chars(&word, at + 1, word.len());
        let end = find_char(&rest, 0, rest.len(), '@');
        assert(rest@.subrange(0, rest.len() as int) =~= rest@);
        Some(slice_chars(&rest, 0, end))
    } else {
        None
    };
    Head { name, bot, args }
}

/// Whether `h` addresses a bot other than `bot_name`.
pub fn head_addressed_elsewhere(h: &Head, bot_name: &Vec<char>) -> (r: bool)
    ensures
        r == match h.bot {
            Some(b) => !same_ignoring_ascii_case(b@, bot_name@),
            None => false,
        },
{
    match &h.bot {
        Some(b) => !eq_ignore_ascii_case(b, bot_name),
        None => false,
    }
}

} // verus!
