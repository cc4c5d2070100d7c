use vstd::prelude::*;
use crate::config::Args;
use crate::db_controller::{row_view, rows_view, Controller};
use crate::decimal::push_decimal;
use crate::messages::{BotText, BotTextView};
use crate::models::{Record, User};
use crate::plan::{
    callback_plan, carried, command_plan, conclude, forward_plan, inline_plan, message_plan,
    outputs, text_plan, update_plan, Plan,
};
use crate::seq_util::lemma_position_is;
use crate::store::empty_store;
use crate::telegram::{
    articles_view, CallbackQuery, ChatUser, Handled, InlineQuery, InlineQueryResultArticle,
    Message, Update,
};
use crate::text::{from_chars, push_chars, slice_chars, to_chars};
use crate::workflow::{
    article_of, articles_of, callback_handled, commanded, forwarded, inline_handled,
    message_handled, other_than, reply_to, text_handled, update_handled, without_leading,
    Outcome,
};

verus! {

/// The bot: its configuration, and the users and records that it keeps.
#[derive(Debug)]
pub struct Bot {
    pub config: Args,
    pub controller: Controller,
}

/// `s` without every `c` at its start.
fn trim_leading(s: &Vec<char>, c: char) -> (r: Vec<char>)
    ensures
        r@ == without_leading(s@, c),
{
    let mut k: usize = 0;
    while k < s.len() && s[k] == c
        invariant
            k <= s.len(),
            forall|j: int| 0 <= j < k ==> s@[j] == c,
        decreases s.len() - k,
    {
        k += 1;
    }
    proof {
        lemma_position_is(s@, other_than(c), k as int);
    }
    slice_chars(s, k, s.len())
}

/// The search result that `row` makes: none where its author is not known by a name.
pub fn article(row: &(Record, Option<User>)) -> (r: Option<InlineQueryResultArticle>)
    ensures
        match r {
            Some(a) => article_of(row_view(*row)) == Some(a@),
            None => article_of(row_view(*row)) is None,
        },
{
    let user = match &row.1 {
        Some(user) => user,
        None => {
            return None;
        },
    };
    let username = match &user.username {
        Some(username) => username,
        None => {
            return None;
        },
    };
    let name = to_chars(username.as_str());
    let message = to_chars(row.0.message.as_str());
    let mut id: Vec<char> = Vec::new();
    push_decimal(&mut id, row.0.id);
    let mut text: Vec<char> = Vec::new();
    text.push('*');
    let bare = trim_leading(&name, '@');
    push_chars(&mut text, &bare);
    text.push('*');
    text.push(':');
    text.push(' ');
    push_chars(&mut text, &message);
    let mut by: Vec<char> = Vec::new();
    by.push('B');
    by.push('y');
    by.push(':');
    by.push(' ');
    push_chars(&mut by, &name);
    proof {
        let want = article_of(row_view(*row))->0;
        assert(id@ =~= want.id);
        assert(text@ =~= want.message_text);
        assert(by@ =~= want.description);
    }
    Some(
        InlineQueryResultArticle {
            id: from_chars(&id),
            title: row.0.message.clone(),
            message_text: from_chars(&text),
            description: from_chars(&by),
        },
    )
}

/// The search results that `rows` make, in their order.
pub fn articles(rows: &Vec<(Record, Option<User>)>) -> (r: Vec<InlineQueryResultArticle>)
    ensures
        articles_view(r@) == articles_of(rows_view(rows@)),
{
    let mut r: Vec<InlineQueryResultArticle> = Vec::new();
    let ghost all = rows_view(rows@);
    let mut i: usize = 0;
    assert(articles_view(r@) =~= articles_of(all.subrange(0, 0)));
    while i < rows.len()
        invariant
            i <= rows.len(),
            all == rows_view(rows@),
            articles_view(r@) == articles_of(all.subrange(0, i as int)),
        decreases rows.len() - i,
    {
        let ghost upto = all.subrange(0, i as int + 1);
        proof {
            assert(upto.drop_last() =~= all.subrange(0, i as int));
            assert(upto.last() == row_view(rows@[i as int]));
        }
        match article(&rows[i]) {
            Some(a) => {
                let ghost before = r@;
                r.push(a);
                proof {
                    let want = articles_of(upto);
                    assert(articles_view(before).len() == before.len());
                    assert(articles_view(r@).len() == want.len());
                    assert forall|j: int| 0 <= j < want.len() implies articles_view(r@)[j]
                        == want[j] by {
                        if j < before.len() {
                            assert(r@[j] == before[j]);
                            assert(articles_view(before)[j] == before[j]@);
                        }
                    }
                    assert(articles_view(r@) =~= want);
                }
            },
            None => {},
        }
        i += 1;
    }
    assert(all.subrange(0, rows.len() as int) =~= all);
    r
}

impl Bot {
    /// Whether the bot is valid: its store is.
    pub open spec fn wf(&self) -> bool {
        self.controller.wf()
    }

    /// Create new bot
    pub fn new(config: Args) -> (bot: Self)
        ensures
            bot.wf(),
            bot.config == config,
            bot.controller@ == empty_store(),
    {
        Self { config, controller: Controller::new() }
    }

    /// Carries a plan out: asks the store what the plan asks, and goes on with its answer.
    pub fn carry_out(&mut self, plan: Plan) -> (h: Handled)
        requires
            old(self).wf(),
        ensures
            final(self).wf(),
            final(self).config == old(self).config,
            (Outcome { store: final(self).controller@, handled: h@ }) == carried(
                old(self).controller@,
                plan@,
            ),
    {
        match plan {
            Plan::Done(handled) => handled,
            Plan::Ask { request, then } => {
                let answer = self.controller.answer(request);
                conclude(then, answer)
            },
        }
    }

    /// Answers a message that is no text.
    pub fn default_message_handler(&self, message: &Message) -> (h: Handled)
        ensures
            h@ == outputs(seq![reply_to(*message, BotTextView::MessageOnly)]),
    {
        Handled::one(message.reply(BotText::MessageOnly))
    }

    /// Records `data`, forwarded in `message`, for its author, with the sender and the author
    /// taken in; confirms it to the sender, and tells the author where a notice is due: not
    /// where the sender is the author, and not where the author has switched notices off.
    pub fn forward_handler(&mut self, message: &Message, data: &str, author: &ChatUser) -> (h:
        Handled)
        requires
            old(self).wf(),
        ensures
            final(self).wf(),
            final(self).config == old(self).config,
            (Outcome { store: final(self).controller@, handled: h@ }) == forwarded(
                old(self).controller@,
                *message,
                data@,
                *author,
            ),
    {
        self.carry_out(forward_plan(message, data, author))
    }

    /// Handles a message that is meant as a command, as the bot called `bot_name`.
    pub fn command_hanler(&mut self, message: &Message, bot_name: &str) -> (h: Handled)
        requires
            old(self).wf(),
        ensures
            final(self).wf(),
            final(self).config == old(self).config,
            (Outcome { store: final(self).controller@, handled: h@ }) == commanded(
                old(self).controller@,
                *message,
                bot_name@,
            ),
    {
        self.carry_out(command_plan(message, bot_name))
    }

    /// Handles a text message, by where it comes from.
    pub fn text_message_heandler(&mut self, message: &Message, data: &str, bot_name: &str) -> (h:
        Handled)
        requires
            old(self).wf(),
        ensures
            final(self).wf(),
            final(self).config == old(self).config,
            (Outcome { store: final(self).controller@, handled: h@ }) == text_handled(
                old(self).controller@,
                *message,
                data@,
                bot_name@,
            ),
    {
        self.carry_out(text_plan(message, data, bot_name))
    }

    /// Handles a message.
    pub fn message_handler(&mut self, message: &Message, bot_name: &str) -> (h: Handled)
        requires
            old(self).wf(),
        ensures
            final(self).wf(),
            final(self).config == old(self).config,
            (Outcome { store: final(self).controller@, handled: h@ }) == message_handled(
                old(self).controller@,
                *message,
                bot_name@,
            ),
    {
        self.carry_out(message_plan(message, bot_name))
    }

    /// Handles a search. The store is not written.
    pub fn inline_query_hander(&mut self, inline_query: &InlineQuery) -> (h: Handled)
        requires
            old(self).wf(),
        ensures
            final(self).wf(),
            final(self).config == old(self).config,
            final(self).controller@ == old(self).controller@,
            (Outcome { store: final(self).controller@, handled: h@ }) == inline_handled(
                old(self).controller@,
                *inline_query,
            ),
    {
        self.carry_out(inline_plan(inline_query))
    }

    /// Handles a press on a button, as the bot called `bot_name`. The store is not written.
    pub fn callback_handler(&mut self, callback: &CallbackQuery, bot_name: &str) -> (h: Handled)
        requires
            old(self).wf(),
        ensures
            final(self).wf(),
            final(self).config == old(self).config,
            final(self).controller@ == old(self).controller@,
            (Outcome { store: final(self).controller@, handled: h@ }) == callback_handled(
                old(self).controller@,
                *callback,
                bot_name@,
            ),
    {
        self.carry_out(callback_plan(callback, bot_name))
    }

    /// Handles an update, as the bot called `bot_name`.
    pub fn update_handler(&mut self, update: &Update, bot_name: &str) -> (h: Handled)
        requires
            old(self).wf(),
        ensures
            final(self).wf(),
            final(self).config == old(self).config,
            (Outcome { store: final(self).controller@, handled: h@ }) == update_handled(
                old(self).controller@,
                *update,
                bot_name@,
            ),
    {
        self.carry_out(update_plan(update, bot_name))
    }
}

} // verus!
