use std::collections::HashMap;
use strfmt::{FmtError, Format};
use vstd::prelude::*;
use crate::decimal::{decimal, push_decimal};
use crate::text::from_chars;

verus! {

pub const BOT_TEXT_MESSAGE_ONLY: &'static str = "仅支持文本信息";

pub const BOT_TEXT_FORWARDED_ONLY: &'static str = "仅支持转发信息";

pub const BOT_TEXT_USER_ONLY: &'static str = "仅支持用户信息";

pub const BOT_TEXT_NO_BOT: &'static str = "不支持 bot 消息";

pub const BOT_TEXT_NOTED: &'static str = "✅ `{data}` 已记录";

pub const BOT_TEXT_NOTICE: &'static str =
    "[{username}](tg://user?id={user_id}) 转发了你的 `{data}`\n* 你可以使用 /list 命令查看自己或者他人被记录的信息\n* 你可以使用 /del 命令删除某条自己的信息\n* 你也可以使用 /mute 或者 /unmute 命令开启或者关闭提醒";

pub const BOT_TEXT_WELCOME: &'static str =
    "✅ 注册成功！如果有别人记录了你的消息，这里会有提醒，可使用 /mute 命令关闭提醒";

pub const BOT_HELP: &'static str =
    "**帮助**\n\n* /list `[@username]` 列出已记录的内容\n* /del `id` 删除对应id的记录，只能删除自己的\n* /mute 关闭提醒\n* /unmute 开启提醒";

pub const BOT_ABOUT: &'static str =
    "Say something bot - Reborn\n\n[Github](https://github.com/senseab/saysthbot-reborn) @ssthbot";

pub const BOT_TEXT_MUTE_STATUS: &'static str = "提醒状态：{status}";

pub const BOT_TEXT_STATUS_ON: &'static str = "✅ 开启";

pub const BOT_TEXT_STATUS_OFF: &'static str = "❎ 关闭";

pub const BOT_TEXT_DELETED: &'static str = "已删除";

pub const BOT_TEXT_LOADING: &'static str = "⏳ 加载中……";

pub const BOT_TEXT_SHOULD_START_WITH_AT: &'static str = "用户名应以 @ 开头";

pub const BOT_BUTTON_HEAD: &'static str = "⏮️";

pub const BOT_BUTTON_PREV: &'static str = "◀️";

pub const BOT_BUTTON_NEXT: &'static str = "▶️";

pub const BOT_BUTTON_END: &'static str = "⏭️";

/// Why a template could not be filled in.
#[derive(Debug, Clone, Copy, PartialEq, Eq, Structural)]
pub enum FormatError {
    /// The template is not well formed.
    Invalid,
    /// The template names a variable that has no value.
    KeyError,
    /// The template asks for a form that a text cannot take.
    TypeError,
}

/// A text that the bot sends, with what goes into it.
#[derive(Debug)]
pub enum BotText {
    /// Only text messages are handled.
    MessageOnly,
    /// Only forwarded messages are recorded.
    ForwardedOnly,
    /// Only messages of users are recorded.
    UserOnly,
    /// Messages of bots are not recorded.
    NoBot,
    /// `data` was recorded.
    Noted { data: String },
    /// The user `user_id`, called `username`, forwarded `data`.
    Notice { username: String, user_id: i64, data: String },
    /// The user is registered.
    Welcome,
    /// What the commands do.
    Help,
    /// What the bot is.
    About,
    /// Whether notices are switched on.
    MuteStatus { enabled: bool },
    /// The record was deleted.
    Deleted,
    /// The records are being looked up.
    Loading,
    /// A user name starts with `@`.
    ShouldStartWithAt,
}

/// What a `BotText` holds, as mathematical values.
pub enum BotTextView {
    MessageOnly,
    ForwardedOnly,
    UserOnly,
    NoBot,
    Noted { data: Seq<char> },
    Notice { username: Seq<char>, user_id: int, data: Seq<char> },
    Welcome,
    Help,
    About,
    MuteStatus { enabled: bool },
    Deleted,
    Loading,
    ShouldStartWithAt,
}

impl View for BotText {
    type V = BotTextView;

    open spec fn view(&self) -> BotTextView {
        match self {
            BotText::MessageOnly => BotTextView::MessageOnly,
            BotText::ForwardedOnly => BotTextView::ForwardedOnly,
            BotText::UserOnly => BotTextView::UserOnly,
            BotText::NoBot => BotTextView::NoBot,
            BotText::Noted { data } => BotTextView::Noted { data: data@ },
            BotText::Notice { username, user_id, data } => BotTextView::Notice {
                username: username@,
                user_id: *user_id as int,
                data: data@,
            },
            BotText::Welcome => BotTextView::Welcome,
            BotText::Help => BotTextView::Help,
            BotText::About => BotTextView::About,
            BotText::MuteStatus { enabled } => BotTextView::MuteStatus { enabled: *enabled },
            BotText::Deleted => BotTextView::Deleted,
            BotText::Loading => BotTextView::Loading,
            BotText::ShouldStartWithAt => BotTextView::ShouldStartWithAt,
        }
    }
}

/// What `strfmt` makes of `template` when each of `names` stands for the value at its place
/// in `values`.
pub uninterp spec fn strfmt_result(
    template: Seq<char>,
    names: Seq<Seq<char>>,
    values: Seq<Seq<char>>,
) -> Result<Seq<char>, FormatError>;

/// Fills `template` in with `Format::format` of the crate `strfmt`, over a map that binds each
/// of `names` to the value at its place in `values`. The result is named, not stated: it is
/// what that function returns for this template and these bindings, with the kind of its error
/// kept and the error's message dropped.
#[verifier::external_body]
fn strfmt_format(template: &str, names: &Vec<String>, values: &Vec<String>) -> (r: Result<
    String,
    FormatError,
>)
    ensures
        match r {
            Ok(s) => strfmt_result(template@, names.deep_view(), values.deep_view()) == Ok::<
                Seq<char>,
                FormatError,
            >(s@),
            Err(e) => strfmt_result(template@, names.deep_view(), values.deep_view()) == Err::<
                Seq<char>,
                FormatError,
            >(e),
        },
{
    let vars: HashMap<String, String> = names.iter().cloned().zip(values.iter().cloned()).collect();
    match template.format(&vars) {
        Ok(s) => Ok(s),
        Err(FmtError::Invalid(_)) => Err(FormatError::Invalid),
        Err(FmtError::KeyError(_)) => Err(FormatError::KeyError),
        Err(FmtError::TypeError(_)) => Err(FormatError::TypeError),
    }
}

/// What is shown for a state of the notices.
pub open spec fn status_text(enabled: bool) -> Seq<char> {
    if enabled {
        BOT_TEXT_STATUS_ON@
    } else {
        BOT_TEXT_STATUS_OFF@
    }
}

/// The text that is sent for `t`: a fixed text, or a template filled in.
pub open spec fn rendered(t: BotTextView) -> Result<Seq<char>, FormatError> {
    match t {
        BotTextView::MessageOnly => Ok(BOT_TEXT_MESSAGE_ONLY@),
        BotTextView::ForwardedOnly => Ok(BOT_TEXT_FORWARDED_ONLY@),
        BotTextView::UserOnly => Ok(BOT_TEXT_USER_ONLY@),
        BotTextView::NoBot => Ok(BOT_TEXT_NO_BOT@),
        BotTextView::Noted { data } => strfmt_result(BOT_TEXT_NOTED@, seq!["data"@], seq![data]),
        BotTextView::Notice { username, user_id, data } => strfmt_result(
            BOT_TEXT_NOTICE@,
            seq!["username"@, "user_id"@, "data"@],
            seq![username, decimal(user_id), data],
        ),
        BotTextView::Welcome => Ok(BOT_TEXT_WELCOME@),
        BotTextView::Help => Ok(BOT_HELP@),
        BotTextView::About => Ok(BOT_ABOUT@),
        BotTextView::MuteStatus { enabled } => strfmt_result(
            BOT_TEXT_MUTE_STATUS@,
            seq!["status"@],
            seq![status_text(enabled)],
        ),
        BotTextView::Deleted => Ok(BOT_TEXT_DELETED@),
        BotTextView::Loading => Ok(BOT_TEXT_LOADING@),
        BotTextView::ShouldStartWithAt => Ok(BOT_TEXT_SHOULD_START_WITH_AT@),
    }
}

/// The view of what `render` returned.
pub open spec fn render_view(r: Result<String, FormatError>) -> Result<Seq<char>, FormatError> {
    match r {
        Ok(s) => Ok(s@),
        Err(e) => Err(e),
    }
}

fn fixed(text: &str) -> (r: Result<String, FormatError>)
    ensures
        render_view(r) == Ok::<Seq<char>, FormatError>(text@),
{
    Ok(text.to_owned())
}

impl BotText {
    /// The text that is sent for `self`.
    pub fn render(&self) -> (r: Result<String, FormatError>)
        ensures
            render_view(r) == rendered(self@),
    {
        match self {
            BotText::MessageOnly => fixed(BOT_TEXT_MESSAGE_ONLY),
            BotText::ForwardedOnly => fixed(BOT_TEXT_FORWARDED_ONLY),
            BotText::UserOnly => fixed(BOT_TEXT_USER_ONLY),
            BotText::NoBot => fixed(BOT_TEXT_NO_BOT),
            BotText::Noted { data } => {
                let mut names: Vec<String> = Vec::new();
                names.push("data".to_owned());
                let mut values: Vec<String> = Vec::new();
                values.push(data.clone());
                assert(names.deep_view() =~= seq!["data"@]);
                assert(values.deep_view() =~= seq![data@]);
                strfmt_format(BOT_TEXT_NOTED, &names, &values)
            },
            BotText::Notice { username, user_id, data } => {
                let mut id: Vec<char> = Vec::new();
                push_decimal(&mut id, *user_id);
                assert(id@ =~= decimal(*user_id as int));
                let mut names: Vec<String> = Vec::new();
                names.push("username".to_owned());
                names.push("user_id".to_owned());
                names.push("data".to_owned());
                let mut values: Vec<String> = Vec::new();
                values.push(username.clone());
                values.push(from_chars(&id));
                values.push(data.clone());
                assert(names.deep_view() =~= seq!["username"@, "user_id"@, "data"@]);
                assert(values.deep_view() =~= seq![username@, decimal(*user_id as int), data@]);
                strfmt_format(BOT_TEXT_NOTICE, &names, &values)
            },
            BotText::Welcome => fixed(BOT_TEXT_WELCOME),
            BotText::Help => fixed(BOT_HELP),
            BotText::About => fixed(BOT_ABOUT),
            BotText::MuteStatus { enabled } => {
                let status = if *enabled {
                    BOT_TEXT_STATUS_ON.to_owned()
                } else {
                    BOT_TEXT_STATUS_OFF.to_owned()
                };
                let mut names: Vec<String> = Vec::new();
                names.push("status".to_owned());
                let mut values: Vec<String> = Vec::new();
                values.push(status);
                assert(names.deep_view() =~= seq!["status"@]);
                assert(values.deep_view() =~= seq![status_text(*enabled)]);
                strfmt_format(BOT_TEXT_MUTE_STATUS, &names, &values)
            },
            BotText::Deleted => fixed(BOT_TEXT_DELETED),
            BotText::Loading => fixed(BOT_TEXT_LOADING),
            BotText::ShouldStartWithAt => fixed(BOT_TEXT_SHOULD_START_WITH_AT),
        }
    }
}

} // verus!
