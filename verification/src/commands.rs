use vstd::prelude::*;
use crate::bot::Bot;
use crate::callback_commands::{encode_page, page_token};
use crate::db_controller::{PageView, PaginatedRecordData, RowView};
use crate::decimal::{decimal, parse_bounded, parse_i64, push_decimal, push_digits};
use crate::messages::{BOT_BUTTON_END, BOT_BUTTON_HEAD, BOT_BUTTON_NEXT, BOT_BUTTON_PREV};
use crate::pagination::clamped_page;
use crate::parse::{
    addressed_elsewhere, command_name, head_addressed_elsewhere, head_args, head_word,
    split_head,
};
use crate::plan::{about_plan, del_plan, help_plan, list_plan, notify_plan, setup_plan};
use crate::telegram::{ChatUser, Handled, Message};
use crate::text::{
    ascii_lowercase, chars_eq, find_char, from_chars, is_blank, push_str, range_is_blank,
    slice_chars, to_ascii_lowercase, to_chars,
};
use crate::workflow::{
    about_handled, del_handled, help_handled, list_handled, notify_handled, page_of,
    setup_handled, Outcome,
};

verus! {

/// A way to another page.
#[derive(Debug, Clone, Copy, PartialEq, Eq, Structural)]
pub enum Navigation {
    /// To the first page.
    Head,
    /// One page back.
    Prev,
    /// One page on.
    Next,
    /// To the last page.
    End,
}

/// A button under a page of records.
#[derive(Debug)]
pub struct InlineKeyboardButton {
    /// Where the button leads.
    pub kind: Navigation,
    /// What the button shows.
    pub text: String,
    /// The token that the button carries.
    pub callback_data: String,
}

/// What an `InlineKeyboardButton` holds, as mathematical values.
pub struct ButtonView {
    pub kind: Navigation,
    pub text: Seq<char>,
    pub callback_data: Seq<char>,
}

impl View for InlineKeyboardButton {
    type V = ButtonView;

    open spec fn view(&self) -> ButtonView {
        ButtonView { kind: self.kind, text: self.text@, callback_data: self.callback_data@ }
    }
}

/// What buttons hold, as mathematical values.
pub open spec fn buttons_view(buttons: Seq<InlineKeyboardButton>) -> Seq<ButtonView> {
    Seq::new(buttons.len(), |i: int| buttons[i]@)
}

/// The ways that lead on from `page` of `pages`: none where there is one page, forward from
/// the first, back from the last, both between.
pub open spec fn navigation(page: int, pages: int) -> Seq<Navigation> {
    if pages <= 1 {
        seq![]
    } else if page <= 0 {
        seq![Navigation::Next, Navigation::End]
    } else if page >= pages - 1 {
        seq![Navigation::Head, Navigation::Prev]
    } else {
        seq![Navigation::Head, Navigation::Prev, Navigation::Next, Navigation::End]
    }
}

/// The page that a way leads to from `page` of `pages`.
pub open spec fn target_page(kind: Navigation, page: int, pages: int) -> int {
    match kind {
        Navigation::Head => 0,
        Navigation::Prev => page - 1,
        Navigation::Next => page + 1,
        Navigation::End => pages - 1,
    }
}

/// What the button of a way shows.
pub open spec fn button_label(kind: Navigation) -> Seq<char> {
    match kind {
        Navigation::Head => BOT_BUTTON_HEAD@,
        Navigation::Prev => BOT_BUTTON_PREV@,
        Navigation::Next => BOT_BUTTON_NEXT@,
        Navigation::End => BOT_BUTTON_END@,
    }
}

/// The button of a way from `page` of `pages` of the records of `username`.
pub open spec fn nav_button(
    kind: Navigation,
    page: int,
    pages: int,
    msg_id: int,
    username: Seq<char>,
) -> ButtonView {
    ButtonView {
        kind,
        text: button_label(kind),
        callback_data: page_token(msg_id, username, target_page(kind, page, pages)),
    }
}

/// The page that the buttons are made for: `page`, or the last page where it lies beyond.
pub open spec fn shown_page(page: int, pages: int) -> int {
    if pages <= 1 {
        0
    } else {
        clamped_page(page, pages)
    }
}

/// The buttons under `page` of `pages` of the records of `username`.
pub open spec fn keyboard(
    page: int,
    pages: int,
    msg_id: int,
    username: Seq<char>,
) -> Seq<ButtonView> {
    let shown = shown_page(page, pages);
    let ways = navigation(shown, pages);
    Seq::new(ways.len(), |i: int| nav_button(ways[i], shown, pages, msg_id, username))
}

/// The buttons under a page are those of the ways that lead on from it, in their order: none
/// where there is one page; forward and to the end from the first of several; to the start and
/// back from the last; all four from a page between.
pub proof fn lemma_keyboard_ways(page: int, pages: int, msg_id: int, username: Seq<char>)
    requires
        0 <= page < pages,
    ensures
        keyboard(page, pages, msg_id, username).len() == navigation(page, pages).len(),
        forall|i: int|
            0 <= i < navigation(page, pages).len() ==> (#[trigger] keyboard(
                page,
                pages,
                msg_id,
                username,
            )[i]).kind == navigation(page, pages)[i],
        pages == 1 ==> navigation(page, pages) == Seq::<Navigation>::empty(),
        pages > 1 && page == 0 ==> navigation(page, pages) == seq![
            Navigation::Next,
            Navigation::End,
        ],
        pages > 1 && page == pages - 1 ==> navigation(page, pages) == seq![
            Navigation::Head,
            Navigation::Prev,
        ],
        pages > 1 && 0 < page < pages - 1 ==> navigation(page, pages) == seq![
            Navigation::Head,
            Navigation::Prev,
            Navigation::Next,
            Navigation::End,
        ],
{
}

/// One line of a page: the id of the record, four tabs, its text.
pub open spec fn record_line(row: RowView) -> Seq<char> {
    seq!['\n'] + decimal(row.0.id) + seq!['\t', '\t', '\t', '\t'] + row.0.message
}

/// The lines of the records, one after the other.
pub open spec fn record_lines(rows: Seq<RowView>) -> Seq<char>
    decreases rows.len(),
{
    if rows.len() == 0 {
        Seq::empty()
    } else {
        record_lines(rows.drop_last()) + record_line(rows.last())
    }
}

/// The text of a page: the lines of its records as one block of fixed-width text, and below
/// it the number of the page, counted from one, and the number of pages.
pub open spec fn page_text(rows: Seq<RowView>, page: int, pages: int) -> Seq<char> {
    seq!['`', '`', '`'] + record_lines(rows) + seq!['\n', '`', '`', '`', '\n'] + decimal(page + 1)
        + seq!['/'] + decimal(pages)
}

/// What a user can ask of the bot, with the arguments checked.
#[derive(Debug)]
pub enum Commands {
    /// Show what the commands do.
    Help,
    /// Show what the bot is.
    About,
    /// Switch notices off.
    Mute,
    /// Switch notices on.
    Unmute,
    /// List the records of the user called `username`, which starts with `@`.
    List { username: String },
    /// Delete the record `id`.
    Del { id: i64 },
    /// Register the sender.
    Setup,
}

/// What a `Commands` holds, as mathematical values.
pub enum CommandsView {
    Help,
    About,
    Mute,
    Unmute,
    List { username: Seq<char> },
    Del { id: int },
    Setup,
}

impl View for Commands {
    type V = CommandsView;

    open spec fn view(&self) -> CommandsView {
        match self {
            Commands::Help => CommandsView::Help,
            Commands::About => CommandsView::About,
            Commands::Mute => CommandsView::Mute,
            Commands::Unmute => CommandsView::Unmute,
            Commands::List { username } => CommandsView::List { username: username@ },
            Commands::Del { id } => CommandsView::Del { id: *id as int },
            Commands::Setup => CommandsView::Setup,
        }
    }
}

impl Default for Commands {
    fn default() -> (r: Self)
        ensures
            r@ == CommandsView::Help,
    {
        Commands::Help
    }
}

/// A command as the chat platform lists it.
#[derive(Debug)]
pub struct BotCommand {
    /// The command, with its `/`.
    pub command: String,
    /// What the command does.
    pub description: String,
}

/// The commands that the bot offers, with what each does, as pairs of texts.
pub open spec fn offered_commands() -> Seq<(Seq<char>, Seq<char>)> {
    seq![
        ("/help"@, "显示帮助信息"@),
        ("/about"@, "关于本 Bot"@),
        ("/mute"@, "关闭提醒"@),
        ("/unmute"@, "开启提醒"@),
        ("/list"@, "列出已记录的内容"@),
        ("/del"@, "删除记录"@),
        ("/setup"@, "注册"@),
    ]
}

/// What commands hold, as pairs of texts.
pub open spec fn bot_commands_view(commands: Seq<BotCommand>) -> Seq<(Seq<char>, Seq<char>)> {
    Seq::new(commands.len(), |i: int| (commands[i].command@, commands[i].description@))
}

fn bot_command(command: &str, description: &str) -> (r: BotCommand)
    ensures
        r.command@ == command@,
        r.description@ == description@,
{
    BotCommand { command: command.to_owned(), description: description.to_owned() }
}

impl Commands {
    /// The commands that the bot offers, in the order in which they are listed.
    pub fn bot_commands() -> (r: Vec<BotCommand>)
        ensures
            bot_commands_view(r@) == offered_commands(),
    {
        let mut r: Vec<BotCommand> = Vec::new();
        r.push(bot_command("/help", "显示帮助信息"));
        r.push(bot_command("/about", "关于本 Bot"));
        r.push(bot_command("/mute", "关闭提醒"));
        r.push(bot_command("/unmute", "开启提醒"));
        r.push(bot_command("/list", "列出已记录的内容"));
        r.push(bot_command("/del", "删除记录"));
        r.push(bot_command("/setup", "注册"));
        assert(bot_commands_view(r@) =~= offered_commands());
        r
    }
}

/// What is wrong with the arguments of a command.
#[derive(Debug, Clone, Copy, PartialEq, Eq, Structural)]
pub enum ValidationError {
    /// The user name does not start with `@`, or none was given and the sender has none.
    MissingAt,
    /// The id of the record is not a number.
    InvalidId,
}

/// What a text asks of the bot.
#[derive(Debug)]
pub enum Classified {
    /// The text has no first word, or addresses another bot.
    NotACommand,
    /// The sender is a bot: nothing is done and nothing is answered.
    Ignored,
    /// The command is known and its arguments are wrong.
    Invalid(ValidationError),
    /// The command, with its arguments.
    Command(Commands),
}

/// What a `Classified` holds, as mathematical values.
pub enum ClassifiedView {
    NotACommand,
    Ignored,
    Invalid(ValidationError),
    Command(CommandsView),
}

impl View for Classified {
    type V = ClassifiedView;

    open spec fn view(&self) -> ClassifiedView {
        match self {
            Classified::NotACommand => ClassifiedView::NotACommand,
            Classified::Ignored => ClassifiedView::Ignored,
            Classified::Invalid(e) => ClassifiedView::Invalid(*e),
            Classified::Command(c) => ClassifiedView::Command(c@),
        }
    }
}

/// The word that names a command: without the `/` that may stand before it, and in small
/// letters.
pub open spec fn command_word(name: Seq<char>) -> Seq<char> {
    if name.len() > 0 && name[0] == '/' {
        ascii_lowercase(name.subrange(1, name.len() as int))
    } else {
        ascii_lowercase(name)
    }
}

/// The name under which a user is listed: `@` and their handle.
pub open spec fn mention(handle: Seq<char>) -> Seq<char> {
    seq!['@'] + handle
}

/// Whose records `list` asks for: with no argument those of the sender, under their handle;
/// with one, those of the user it names, which starts with `@`.
pub open spec fn listed(args: Seq<char>, sender: ChatUser) -> Result<Seq<char>, ValidationError> {
    if is_blank(args) {
        match sender.username {
            Some(handle) => Ok(mention(handle@)),
            None => Err(ValidationError::MissingAt),
        }
    } else if args[0] == '@' {
        Ok(args)
    } else {
        Err(ValidationError::MissingAt)
    }
}

/// What the command called `word` asks with the arguments `args`. A word that names no
/// command asks for help.
pub open spec fn routed(word: Seq<char>, args: Seq<char>, sender: ChatUser) -> ClassifiedView {
    if word == "about"@ {
        ClassifiedView::Command(CommandsView::About)
    } else if word == "mute"@ {
        ClassifiedView::Command(CommandsView::Mute)
    } else if word == "unmute"@ {
        ClassifiedView::Command(CommandsView::Unmute)
    } else if word == "setup"@ || word == "start"@ {
        ClassifiedView::Command(CommandsView::Setup)
    } else if word == "list"@ {
        match listed(args, sender) {
            Ok(username) => ClassifiedView::Command(CommandsView::List { username }),
            Err(e) => ClassifiedView::Invalid(e),
        }
    } else if word == "del"@ || word == "delete"@ {
        match parse_bounded(args, true, i64::MIN as int, i64::MAX as int) {
            Some(id) => ClassifiedView::Command(CommandsView::Del { id }),
            None => ClassifiedView::Invalid(ValidationError::InvalidId),
        }
    } else {
        ClassifiedView::Command(CommandsView::Help)
    }
}

/// What `text`, sent by `sender`, asks of the bot called `bot_name`. The first word decides,
/// whatever the case of its letters and with or without a `/` before it; what follows its
/// first space are the arguments.
pub open spec fn classified(
    text: Seq<char>,
    sender: ChatUser,
    bot_name: Seq<char>,
) -> ClassifiedView {
    let word = head_word(text);
    if sender.is_bot {
        ClassifiedView::Ignored
    } else if word.len() == 0 || addressed_elsewhere(word, bot_name) {
        ClassifiedView::NotACommand
    } else {
        routed(command_word(command_name(word)), head_args(text), sender)
    }
}

/// The view of what `list_command_parser` returned.
pub open spec fn listed_view(r: Result<String, ValidationError>) -> Result<
    Seq<char>,
    ValidationError,
> {
    match r {
        Ok(s) => Ok(s@),
        Err(e) => Err(e),
    }
}

fn is_word(word: &Vec<char>, name: &str) -> (r: bool)
    ensures
        r == (word@ == name@),
{
    let chars = to_chars(name);
    chars_eq(word, &chars)
}

/// Whose records `list` asks for, with the arguments `input`.
pub fn list_command_parser(input: &Vec<char>, sender: &ChatUser) -> (r: Result<
    String,
    ValidationError,
>)
    ensures
        listed_view(r) == listed(input@, *sender),
{
    assert(input@.subrange(0, input.len() as int) =~= input@);
    if range_is_blank(input, 0, input.len()) {
        match &sender.username {
            Some(handle) => {
                let mut out: Vec<char> = Vec::new();
                out.push('@');
                push_str(&mut out, handle.as_str());
                assert(out@ =~= mention(handle@));
                Ok(from_chars(&out))
            },
            None => Err(ValidationError::MissingAt),
        }
    } else {
        assert(input.len() > 0);
        if input[0] == '@' {
            Ok(from_chars(input))
        } else {
            Err(ValidationError::MissingAt)
        }
    }
}

/// What `raw_text`, sent by `sender`, asks of the bot called `bot_name`.
pub fn classify(raw_text: &str, sender: &ChatUser, bot_name: &str) -> (r: Classified)
    ensures
        r@ == classified(raw_text@, *sender, bot_name@),
{
    if sender.is_bot {
        return Classified::Ignored;
    }
    let chars = to_chars(raw_text);
    let bot = to_chars(bot_name);
    let sp = find_char(&chars, 0, chars.len(), ' ');
    assert(chars@.subrange(0, chars.len() as int) =~= chars@);
    if sp == 0 {
        return Classified::NotACommand;
    }
    let head = split_head(&chars);
    if head_addressed_elsewhere(&head, &bot) {
        return Classified::NotACommand;
    }
    let word = if head.name.len() > 0 && head.name[0] == '/' {
        let bare = slice_chars(&head.name, 1, head.name.len());
        to_ascii_lowercase(&bare)
    } else {
        to_ascii_lowercase(&head.name)
    };
    if is_word(&word, "about") {
        Classified::Command(Commands::About)
    } else if is_word(&word, "mute") {
        Classified::Command(Commands::Mute)
    } else if is_word(&word, "unmute") {
        Classified::Command(Commands::Unmute)
    } else if is_word(&word, "setup") || is_word(&word, "start") {
        Classified::Command(Commands::Setup)
    } else if is_word(&word, "list") {
        match list_command_parser(&head.args, sender) {
            Ok(username) => Classified::Command(Commands::List { username }),
            Err(e) => Classified::Invalid(e),
        }
    } else if is_word(&word, "del") || is_word(&word, "delete") {
        assert(head.args@.subrange(0, head.args.len() as int) =~= head.args@);
        match parse_i64(&head.args, 0, head.args.len()) {
            Some(id) => Classified::Command(Commands::Del { id }),
            None => Classified::Invalid(ValidationError::InvalidId),
        }
    } else {
        Classified::Command(Commands::Help)
    }
}

/// Whether a text is meant as a command: it starts with `/`.
pub open spec fn looks_like_command(text: Seq<char>) -> bool {
    text.len() > 0 && text[0] == '/'
}

/// Whether `text` is meant as a command.
pub fn is_command(text: &str) -> (r: bool)
    ensures
        r == looks_like_command(text@),
{
    !text.is_empty() && text.get_char(0) == '/'
}

/// What is shown for a page of the records of `username`: its text, and its buttons with
/// tokens that name the message `message_id`.
pub open spec fn page_shown(data: PageView, username: Seq<char>, message_id: int) -> (
    Seq<char>,
    Seq<ButtonView>,
) {
    (
        page_text(data.rows, data.current_page, data.pages_count),
        keyboard(data.current_page, data.pages_count, message_id, username),
    )
}

/// The handlers of the commands, and what they show.
pub struct CommandHandler {}

impl CommandHandler {
    fn nav_button(
        kind: Navigation,
        page: usize,
        pages_count: usize,
        username: &str,
        msg_id: i32,
    ) -> (b:
        InlineKeyboardButton)
        requires
            pages_count >= 1,
            kind == Navigation::Prev ==> page >= 1,
            kind == Navigation::Next ==> page < usize::MAX,
        ensures
            b@ == nav_button(kind, page as int, pages_count as int, msg_id as int, username@),
    {
        let text = match kind {
            Navigation::Head => BOT_BUTTON_HEAD.to_owned(),
            Navigation::Prev => BOT_BUTTON_PREV.to_owned(),
            Navigation::Next => BOT_BUTTON_NEXT.to_owned(),
            Navigation::End => BOT_BUTTON_END.to_owned(),
        };
        let target: usize = match kind {
            Navigation::Head => 0,
            Navigation::Prev => page - 1,
            Navigation::Next => page + 1,
            Navigation::End => pages_count - 1,
        };
        InlineKeyboardButton { kind, text, callback_data: encode_page(msg_id, username, target) }
    }

    /// The buttons under `page` of `pages_count` pages of the records of `username`: forward
    /// and to the end from the first page, to the start and back from the last, all four
    /// between, none where there is one page. A page beyond the last counts as the last.
    pub fn generate_inline_keyboard(
        page: usize,
        pages_count: usize,
        username: &str,
        message: &Message,
    ) -> (buttons: Vec<InlineKeyboardButton>)
        ensures
            buttons_view(buttons@) == keyboard(
                page as int,
                pages_count as int,
                message.id as int,
                username@,
            ),
            buttons.len() == navigation(
                shown_page(page as int, pages_count as int),
                pages_count as int,
            ).len(),
            forall|i: int|
                0 <= i < buttons.len() ==> (#[trigger] buttons[i]).kind == navigation(
                    shown_page(page as int, pages_count as int),
                    pages_count as int,
                )[i],
    {
        Self::keyboard_for(page, pages_count, username, message.id)
    }

    /// The buttons under `page` of `pages_count` pages of the records of `username`, with
    /// tokens that name the message `id`.
    pub fn keyboard_for(page: usize, pages_count: usize, username: &str, id: i32) -> (buttons:
        Vec<InlineKeyboardButton>)
        ensures
            buttons_view(buttons@) == keyboard(page as int, pages_count as int, id as int, username@),
            buttons.len() == navigation(
                shown_page(page as int, pages_count as int),
                pages_count as int,
            ).len(),
            forall|i: int|
                0 <= i < buttons.len() ==> (#[trigger] buttons[i]).kind == navigation(
                    shown_page(page as int, pages_count as int),
                    pages_count as int,
                )[i],
    {
        let mut buttons: Vec<InlineKeyboardButton> = Vec::new();
        let ghost want = keyboard(page as int, pages_count as int, id as int, username@);
        if pages_count <= 1 {
            assert(buttons_view(buttons@) =~= want);
            return buttons;
        }
        let shown: usize = if page < pages_count {
            page
        } else {
            pages_count - 1
        };
        if shown == 0 {
            buttons.push(Self::nav_button(Navigation::Next, shown, pages_count, username, id));
            buttons.push(Self::nav_button(Navigation::End, shown, pages_count, username, id));
        } else if shown >= pages_count - 1 {
            buttons.push(Self::nav_button(Navigation::Head, shown, pages_count, username, id));
            buttons.push(Self::nav_button(Navigation::Prev, shown, pages_count, username, id));
        } else {
            buttons.push(Self::nav_button(Navigation::Head, shown, pages_count, username, id));
            buttons.push(Self::nav_button(Navigation::Prev, shown, pages_count, username, id));
            buttons.push(Self::nav_button(Navigation::Next, shown, pages_count, username, id));
            buttons.push(Self::nav_button(Navigation::End, shown, pages_count, username, id));
        }
        assert(buttons_view(buttons@) =~= want);
        buttons
    }

    /// The text of the page that `paginated_record_data` holds, shown as page `page`.
    pub fn generate_text_record_msg(
        paginated_record_data: &PaginatedRecordData,
        page: usize,
    ) -> (msg:
        String)
        ensures
            msg@ == page_text(
                paginated_record_data@.rows,
                page as int,
                paginated_record_data.pages_count as int,
            ),
    {
        let mut out: Vec<char> = Vec::new();
        push_str(&mut out, "```");
        proof {
            reveal_strlit("```");
            assert(out@ =~= seq!['`', '`', '`']);
        }
        let rows = &paginated_record_data.current_data;
        let ghost all = paginated_record_data@.rows;
        let mut i: usize = 0;
        while i < rows.len()
            invariant
                i <= rows.len(),
                rows == &paginated_record_data.current_data,
                all == paginated_record_data@.rows,
                out@ == seq!['`', '`', '`'] + record_lines(all.subrange(0, i as int)),
            decreases rows.len() - i,
        {
            let ghost before = out@;
            out.push('\n');
            push_decimal(&mut out, rows[i].0.id);
            push_str(&mut out, "\t\t\t\t");
            push_str(&mut out, rows[i].0.message.as_str());
            proof {
                reveal_strlit("\t\t\t\t");
                let upto = all.subrange(0, i as int + 1);
                assert(upto.drop_last() =~= all.subrange(0, i as int));
                assert(upto.last() == all[i as int]);
                assert(out@ =~= before + record_line(all[i as int]));
                assert(out@ =~= seq!['`', '`', '`'] + record_lines(upto));
            }
            i += 1;
        }
        assert(all.subrange(0, rows.len() as int) =~= all);
        push_str(&mut out, "\n```\n");
        push_digits(&mut out, (page as u128) + 1);
        out.push('/');
        push_digits(&mut out, paginated_record_data.pages_count as u128);
        proof {
            reveal_strlit("\n```\n");
            assert(out@ =~= page_text(all, page as int, paginated_record_data.pages_count as int));
        }
        from_chars(&out)
    }
}

impl CommandHandler {
    /// The text and the buttons of the page that `data` holds of the records of `username`.
    pub fn show_page(data: &PaginatedRecordData, username: &str, message_id: i32) -> (r: (
        String,
        Vec<InlineKeyboardButton>,
    ))
        ensures
            (r.0@, buttons_view(r.1@)) == page_shown(data@, username@, message_id as int),
    {
        (
            Self::generate_text_record_msg(data, data.current_page),
            Self::keyboard_for(data.current_page, data.pages_count, username, message_id),
        )
    }

    /// Meets the sender and answers with what the bot is.
    pub fn about_handler(bot_s: &mut Bot, message: &Message) -> (h: Handled)
        requires
            old(bot_s).wf(),
        ensures
            final(bot_s).wf(),
            final(bot_s).config == old(bot_s).config,
            (Outcome { store: final(bot_s).controller@, handled: h@ }) == about_handled(
                old(bot_s).controller@,
                *message,
            ),
    {
        bot_s.carry_out(about_plan(message))
    }

    /// Meets the sender and answers with what the commands do.
    pub fn help_handler(bot_s: &mut Bot, message: &Message) -> (h: Handled)
        requires
            old(bot_s).wf(),
        ensures
            final(bot_s).wf(),
            final(bot_s).config == old(bot_s).config,
            (Outcome { store: final(bot_s).controller@, handled: h@ }) == help_handled(
                old(bot_s).controller@,
                *message,
            ),
    {
        bot_s.carry_out(help_plan(message))
    }

    /// Takes the sender in, switches their notices on or off, and tells them so.
    pub fn notify_handler(bot_s: &mut Bot, message: &Message, enabled: bool) -> (h: Handled)
        requires
            old(bot_s).wf(),
        ensures
            final(bot_s).wf(),
            final(bot_s).config == old(bot_s).config,
            (Outcome { store: final(bot_s).controller@, handled: h@ }) == notify_handled(
                old(bot_s).controller@,
                *message,
                enabled,
            ),
    {
        bot_s.carry_out(notify_plan(message, enabled))
    }

    /// Takes the sender in, and welcomes them; a store that cannot take them in drops the
    /// command.
    pub fn setup_handler(bot_s: &mut Bot, message: &Message) -> (h: Handled)
        requires
            old(bot_s).wf(),
        ensures
            final(bot_s).wf(),
            final(bot_s).config == old(bot_s).config,
            (Outcome { store: final(bot_s).controller@, handled: h@ }) == setup_handled(
                old(bot_s).controller@,
                *message,
            ),
    {
        bot_s.carry_out(setup_plan(message))
    }

    /// Meets the sender, deletes the record `id` where it is theirs, and answers either way.
    pub fn del_handler(bot_s: &mut Bot, message: &Message, id: i64) -> (h: Handled)
        requires
            old(bot_s).wf(),
        ensures
            final(bot_s).wf(),
            final(bot_s).config == old(bot_s).config,
            (Outcome { store: final(bot_s).controller@, handled: h@ }) == del_handled(
                old(bot_s).controller@,
                *message,
                id as int,
            ),
    {
        bot_s.carry_out(del_plan(message, id))
    }

    /// Meets the sender and shows the page `page` of the records of the user called
    /// `username`: first an answer that says that the records are looked up, then the page in
    /// its place.
    pub fn list_handler(bot_s: &mut Bot, message: &Message, username: &str, page: usize) -> (h:
        Handled)
        requires
            old(bot_s).wf(),
        ensures
            final(bot_s).wf(),
            final(bot_s).config == old(bot_s).config,
            (Outcome { store: final(bot_s).controller@, handled: h@ }) == list_handled(
                old(bot_s).controller@,
                *message,
                username@,
                page as int,
            ),
    {
        bot_s.carry_out(list_plan(message, username, page))
    }

    /// The text and the buttons of the page `page` of the records of the user called
    /// `username`; `None` where no user is called so. Nothing is written.
    pub fn record_msg_genrator(bot_s: &Bot, message: &Message, username: &str, page: usize) -> (r:
        Option<(String, Vec<InlineKeyboardButton>)>)
        ensures
            match r {
                Some((text, buttons)) => page_of(
                    bot_s.controller@,
                    *message,
                    username@,
                    page as int,
                ) == Some((text@, buttons_view(buttons@))),
                None => page_of(bot_s.controller@, *message, username@, page as int) is None,
            },
    {
        match bot_s.controller.page(username, page) {
            Some(data) => Some(Self::show_page(&data, username, message.id)),
            None => None,
        }
    }
}

} // verus!
