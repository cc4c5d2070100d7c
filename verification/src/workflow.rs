use vstd::prelude::*;
use crate::callback_commands::{lemma_decode_encoded, page_token, CallbackView};
use crate::commands::{keyboard, mention, nav_button, page_shown, ButtonView, Navigation};
use crate::db_controller::RowView;
use crate::decimal::decimal;
use crate::messages::BotTextView;
use crate::models::RecordView;
use crate::plan::{
    about_planned, callback_planned, carried, command_planned, del_planned, forward_planned,
    help_planned, inline_planned, list_planned, message_planned, nothing, notify_planned,
    outputs, seen_of, sender_seen, setup_planned, text_planned, update_planned,
};
use crate::seq_util::{lemma_position_bounds, position};
use crate::store::{
    by_id_and_owner, by_message, by_tg_uid, by_user_id, forward_error, has_text,
    lemma_forward_sees_both, lemma_met, lemma_seen_first, lemma_upserted, met,
    lemma_with_notify, lemma_with_record_keeps_notify, notify_of, page_data, seen_first,
    sender_refused, store_wf, upserted, user_by_id, user_of, user_refused, with_notify,
    with_record, StoreError, StoreView,
};
use crate::telegram::{
    ArticleView, CallbackQuery, ChatUser, Failure, HandledView, InlineQuery, Message,
    OutputView, Update,
};
use crate::text::{from_chars, push_str};

verus! {

/// The name under which a user is kept: `@` and their handle, or their first name where they
/// have no handle.
pub open spec fn handle(user: ChatUser) -> Seq<char> {
    match user.username {
        Some(name) => mention(name@),
        None => user.first_name@,
    }
}

/// The store after an update, and what handling the update led to.
pub struct Outcome {
    pub store: StoreView,
    pub handled: HandledView,
}

/// Nothing changes, and the update is dropped.
pub open spec fn dropped(v: StoreView, failure: Failure) -> Outcome {
    Outcome { store: v, handled: HandledView { outputs: Seq::empty(), failure: Some(failure) } }
}

/// An answer to `message`.
pub open spec fn reply_to(message: Message, text: BotTextView) -> OutputView {
    OutputView::SendReply { chat_id: message.chat_id as int, message_id: message.id as int, text }
}

/// A message to the chat of `message`.
pub open spec fn sent_to(message: Message, text: BotTextView) -> OutputView {
    OutputView::SendMessage { chat_id: message.chat_id as int, text }
}

/// Whether the author of a forwarded message may be told of it: the message has a sender, and
/// the sender is not the author.
pub open spec fn notice_due(from: Option<ChatUser>, author: ChatUser) -> bool {
    match from {
        Some(sender) => sender.id != author.id,
        None => false,
    }
}

/// The notice that tells `author` that `sender` forwarded `data`.
pub open spec fn notice(sender: ChatUser, author: ChatUser, data: Seq<char>) -> OutputView {
    OutputView::Notify {
        user_id: author.id as int,
        text: BotTextView::Notice {
            username: sender.first_name@,
            user_id: sender.id as int,
            data,
        },
    }
}

/// The sender of `message`, where there is one and it is no bot.
pub open spec fn human_sender(message: Message) -> Option<ChatUser> {
    match message.from {
        Some(sender) => if sender.is_bot {
            None
        } else {
            Some(sender)
        },
        None => None,
    }
}

/// What a forwarded message of a user leads to. The sender and the author are taken in, the
/// text is recorded for its author and confirmed to the sender, and the author is told where
/// a notice is due. Where the store refuses, nothing changes and nothing is sent.
pub open spec fn forwarded(
    v: StoreView,
    message: Message,
    data: Seq<char>,
    author: ChatUser,
) -> Outcome {
    carried(v, forward_planned(message, data, author))
}

/// The page `page` of the records of the user called `username`, as it is shown under
/// `message`: its text and its buttons. `None` where no user is called so.
pub open spec fn page_of(v: StoreView, message: Message, username: Seq<char>, page: int) -> Option<
    (Seq<char>, Seq<ButtonView>),
> {
    match page_data(v, username, page) {
        Some(data) => Some(page_shown(data, username, message.id as int)),
        None => None,
    }
}

/// What `help` leads to.
pub open spec fn help_handled(v: StoreView, message: Message) -> Outcome {
    carried(v, help_planned(message))
}

/// What `about` leads to.
pub open spec fn about_handled(v: StoreView, message: Message) -> Outcome {
    carried(v, about_planned(message))
}

/// What `setup` leads to.
pub open spec fn setup_handled(v: StoreView, message: Message) -> Outcome {
    carried(v, setup_planned(message))
}

/// What `mute` and `unmute` lead to.
pub open spec fn notify_handled(v: StoreView, message: Message, enabled: bool) -> Outcome {
    carried(v, notify_planned(message, enabled))
}

/// What `del` leads to.
pub open spec fn del_handled(v: StoreView, message: Message, id: int) -> Outcome {
    carried(v, del_planned(message, id))
}

/// What `list` leads to.
pub open spec fn list_handled(
    v: StoreView,
    message: Message,
    username: Seq<char>,
    page: int,
) -> Outcome {
    carried(v, list_planned(message, username, page))
}

/// What a message that is meant as a command leads to.
pub open spec fn commanded(v: StoreView, message: Message, bot_name: Seq<char>) -> Outcome {
    carried(v, command_planned(message, bot_name))
}

/// What a text message leads to.
pub open spec fn text_handled(
    v: StoreView,
    message: Message,
    data: Seq<char>,
    bot_name: Seq<char>,
) -> Outcome {
    carried(v, text_planned(message, data, bot_name))
}

/// What a message leads to.
pub open spec fn message_handled(v: StoreView, message: Message, bot_name: Seq<char>) -> Outcome {
    carried(v, message_planned(message, bot_name))
}

/// What a press on a button leads to.
pub open spec fn callback_handled(
    v: StoreView,
    callback: CallbackQuery,
    bot_name: Seq<char>,
) -> Outcome {
    carried(v, callback_planned(callback, bot_name))
}

/// What a search leads to.
pub open spec fn inline_handled(v: StoreView, query: InlineQuery) -> Outcome {
    carried(v, inline_planned(query))
}

/// What an update leads to.
pub open spec fn update_handled(v: StoreView, update: Update, bot_name: Seq<char>) -> Outcome {
    carried(v, update_planned(update, bot_name))
}

/// The characters other than `c`.
pub open spec fn other_than(c: char) -> spec_fn(char) -> bool {
    |x: char| x != c
}

/// How many times `c` stands at the start of `s`.
pub open spec fn leading(s: Seq<char>, c: char) -> int {
    position(s, other_than(c))
}

/// `s` without every `c` at its start.
pub open spec fn without_leading(s: Seq<char>, c: char) -> Seq<char> {
    s.subrange(leading(s, c), s.len() as int)
}

/// The search result that a row makes: none where its author is not known by a name.
pub open spec fn article_of(row: RowView) -> Option<ArticleView> {
    match row.1 {
        Some(user) => match user.username {
            Some(name) => Some(
                ArticleView {
                    id: decimal(row.0.id),
                    title: row.0.message,
                    message_text: seq!['*'] + without_leading(name, '@') + seq!['*', ':', ' ']
                        + row.0.message,
                    description: seq!['B', 'y', ':', ' '] + name,
                },
            ),
            None => None,
        },
        None => None,
    }
}

/// The search results that rows make, in their order.
pub open spec fn articles_of(rows: Seq<RowView>) -> Seq<ArticleView>
    decreases rows.len(),
{
    if rows.len() == 0 {
        Seq::empty()
    } else {
        match article_of(rows.last()) {
            Some(article) => articles_of(rows.drop_last()).push(article),
            None => articles_of(rows.drop_last()),
        }
    }
}

/// Whether `outputs` hold a notice to an author.
pub open spec fn holds_notice(outputs: Seq<OutputView>) -> bool {
    exists|i: int| 0 <= i < outputs.len() && #[trigger] outputs[i] is Notify
}

/// A forward that the store takes leaves the sender and the author known: after the forward of
/// a sender who is not the author, the store is what recording for the author makes of the
/// store in which the sender was seen. The forward is confirmed to the sender first.
pub proof fn lemma_forward_sees_sender(
    v: StoreView,
    message: Message,
    data: Seq<char>,
    author: ChatUser,
)
    requires
        store_wf(v),
        forward_error(v, sender_seen(message), seen_of(author), data) is None,
    ensures
        store_wf(forwarded(v, message, data, author).store),
        user_of(forwarded(v, message, data, author).store, author.id as int) is Some,
        message.from is Some ==> user_of(
            forwarded(v, message, data, author).store,
            message.from->0.id as int,
        ) is Some,
        message.from is Some && message.from->0.id != author.id ==> forwarded(
            v,
            message,
            data,
            author,
        ).store == with_record(
            upserted(v, message.from->0.id as int, handle(message.from->0)),
            author.id as int,
            handle(author),
            data,
        ),
        forwarded(v, message, data, author).handled.failure is None,
        forwarded(v, message, data, author).handled.outputs[0] == reply_to(
            message,
            BotTextView::Noted { data },
        ),
{
    lemma_forward_sees_both(v, sender_seen(message), seen_of(author), data);
}

/// A forward is refused exactly where its text is recorded already, as a duplicate, or where
/// the store has no id left for the sender, for the author or for the record; and a forward
/// that is refused changes nothing and sends nothing.
pub proof fn lemma_forward_refused(
    v: StoreView,
    message: Message,
    data: Seq<char>,
    author: ChatUser,
)
    requires
        store_wf(v),
    ensures
        forward_error(v, sender_seen(message), seen_of(author), data) matches Some(e)
            ==> forwarded(v, message, data, author) == dropped(v, Failure::Store(e)),
        forward_error(v, sender_seen(message), seen_of(author), data) == Some(
            StoreError::Duplicate,
        ) <==> has_text(v, data),
        forward_error(v, sender_seen(message), seen_of(author), data) == Some(StoreError::Storage)
            <==> !has_text(v, data) && (sender_refused(v, sender_seen(message), seen_of(author))
            || user_refused(
            seen_first(v, sender_seen(message), seen_of(author)),
            author.id as int,
        ) || v.next_record_id >= i64::MAX),
{
    if !sender_refused(v, sender_seen(message), seen_of(author)) {
        lemma_seen_first(v, sender_seen(message), seen_of(author));
    }
}

/// A user who forwards their own message is sent no notice, whether they have notices
/// switched on or not; and where the store takes the forward, the text is recorded as theirs
/// and the confirmation is all that is sent.
pub proof fn lemma_self_forward_sends_no_notice(
    v: StoreView,
    message: Message,
    data: Seq<char>,
    author: ChatUser,
)
    requires
        store_wf(v),
        message.from is Some && message.from->0.id == author.id,
    ensures
        !holds_notice(forwarded(v, message, data, author).handled.outputs),
        forward_error(v, sender_seen(message), seen_of(author), data) is None ==> {
            &&& forwarded(v, message, data, author).handled.outputs == seq![
                reply_to(message, BotTextView::Noted { data }),
            ]
            &&& forwarded(v, message, data, author).store == with_record(
                v,
                author.id as int,
                handle(author),
                data,
            )
        },
{
}

/// After an author has switched notices off, a forward of a message of theirs sends them no
/// notice and leaves notices switched off: so with every forward that follows. Where the store
/// takes the forward, the text is recorded as theirs and the confirmation is all that is sent.
pub proof fn lemma_muted_author_gets_no_notice(
    v: StoreView,
    message: Message,
    data: Seq<char>,
    author: ChatUser,
)
    requires
        store_wf(v),
        user_of(v, author.id as int) is Some,
        !notify_of(v, author.id as int),
    ensures
        !holds_notice(forwarded(v, message, data, author).handled.outputs),
        user_of(forwarded(v, message, data, author).store, author.id as int) is Some,
        !notify_of(forwarded(v, message, data, author).store, author.id as int),
        forward_error(v, sender_seen(message), seen_of(author), data) is None ==> {
            &&& forwarded(v, message, data, author).handled.outputs == seq![
                reply_to(message, BotTextView::Noted { data }),
            ]
            &&& forwarded(v, message, data, author).store.records.last() == (RecordView {
                id: v.next_record_id,
                user_id: user_of(v, author.id as int)->0.id,
                message: data,
            })
        },
{
    let sender = sender_seen(message);
    let a = seen_of(author);
    if forward_error(v, sender, a, data) is None {
        let seen = seen_first(v, sender, a);
        lemma_seen_first(v, sender, a);
        lemma_with_record_keeps_notify(seen, a.tg_uid, a.username, data, a.tg_uid);
        lemma_upserted(seen, a.tg_uid, a.username);
        lemma_position_bounds(seen.users, by_tg_uid(a.tg_uid));
    }
}

/// Switching notices off deletes no record, and leaves the user with notices switched off.
pub proof fn lemma_mute_keeps_records(v: StoreView, message: Message)
    requires
        store_wf(v),
        human_sender(message) is Some,
        !user_refused(v, human_sender(message)->0.id as int),
    ensures
        notify_handled(v, message, false).store.records == v.records,
        store_wf(notify_handled(v, message, false).store),
        user_of(notify_handled(v, message, false).store, human_sender(message)->0.id as int)
            is Some,
        !notify_of(notify_handled(v, message, false).store, human_sender(message)->0.id as int),
{
    let sender = human_sender(message)->0;
    let u = upserted(v, sender.id as int, handle(sender));
    lemma_upserted(v, sender.id as int, handle(sender));
    lemma_with_notify(u, sender.id as int, false);
    let w = with_notify(u, sender.id as int, false);
    assert(user_of(u, sender.id as int) is Some);
    assert(notify_of(w, sender.id as int) == false);
}

/// The first forward of a text records it once and is confirmed; a forward of the same text
/// after it, by whichever sender and for whichever author, is refused as a duplicate, records
/// nothing and sends nothing.
pub proof fn lemma_second_forward_is_duplicate(
    v: StoreView,
    message: Message,
    data: Seq<char>,
    author: ChatUser,
    again: Message,
    other: ChatUser,
)
    requires
        store_wf(v),
        forward_error(v, sender_seen(message), seen_of(author), data) is None,
    ensures
        forwarded(v, message, data, author).handled.failure is None,
        forwarded(v, message, data, author).store.records.len() == v.records.len() + 1,
        forwarded(v, message, data, author).store.records.drop_last() == v.records,
        forwarded(v, message, data, author).handled.outputs[0] == reply_to(
            message,
            BotTextView::Noted { data },
        ),
        forwarded(forwarded(v, message, data, author).store, again, data, other) == dropped(
            forwarded(v, message, data, author).store,
            Failure::Store(StoreError::Duplicate),
        ),
{
    lemma_forward_sees_both(v, sender_seen(message), seen_of(author), data);
    let w = forwarded(v, message, data, author).store;
    lemma_position_bounds(w.records, by_message(data));
    assert(by_message(data)(w.records[w.records.len() - 1]));
}

/// A user who asks to delete a record that is not theirs removes no record, and is answered
/// as if it were gone: the command ends without a failure, whatever the store holds.
pub proof fn lemma_delete_of_another_handled(v: StoreView, message: Message, id: int)
    requires
        store_wf(v),
        human_sender(message) is Some,
        forall|i: int|
            0 <= i < v.records.len() && (#[trigger] v.records[i]).id == id ==> user_of(
                v,
                human_sender(message)->0.id as int,
            ) != user_by_id(v, v.records[i].user_id),
    ensures
        del_handled(v, message, id).store.records == v.records,
        del_handled(v, message, id).handled == outputs(
            seq![reply_to(message, BotTextView::Deleted)],
        ),
{
    let sender = human_sender(message)->0;
    let tg = sender.id as int;
    let u = met(v, seen_of(sender));
    lemma_met(v, seen_of(sender));
    if user_of(u, tg) is Some {
        lemma_position_bounds(u.users, by_tg_uid(tg));
        lemma_position_bounds(v.users, by_tg_uid(tg));
        let k = position(u.users, by_tg_uid(tg));
        let owner = u.users[k];
        lemma_position_bounds(u.records, by_id_and_owner(id, owner.id));
        let r = position(u.records, by_id_and_owner(id, owner.id));
        if r < u.records.len() {
            let p = position(v.users, by_user_id(owner.id));
            lemma_position_bounds(v.users, by_user_id(owner.id));
            if user_of(v, tg) is Some {
                lemma_upserted(v, tg, handle(sender));
                assert(owner.id == v.users[k].id);
                assert(by_user_id(owner.id)(v.users[k]));
                assert(p == k);
            } else {
                assert(v.users[p].id < v.next_user_id);
            }
        }
    }
}

/// A press on a button that carries the token of a page of a user's records puts that page in
/// place of the message under which the button stands, once, and answers the press; the store
/// is not written. Where no user is called by the name, nothing is done.
pub proof fn lemma_press_turns_page(
    v: StoreView,
    callback: CallbackQuery,
    bot_name: Seq<char>,
    msg_id: int,
    username: Seq<char>,
    page: int,
)
    requires
        callback.message is Some,
        callback.data is Some,
        callback.data->0@ == page_token(msg_id, username, page),
        i32::MIN <= msg_id <= i32::MAX,
        0 <= page <= usize::MAX,
    ensures
        callback_handled(v, callback, bot_name).store == v,
        callback_handled(v, callback, bot_name).handled == match page_data(v, username, page) {
            Some(data) => outputs(
                seq![
                    OutputView::EditMessage {
                        chat_id: callback.message->0.chat_id as int,
                        message_id: callback.message->0.id as int,
                        body: page_shown(data, username, callback.message->0.id as int).0,
                        keyboard: page_shown(data, username, callback.message->0.id as int).1,
                    },
                    OutputView::AnswerCallbackQuery { id: callback.id@ },
                ],
            ),
            None => nothing(),
        },
{
    lemma_decode_encoded(CallbackView::Page { msg_id, username, page }, bot_name);
}

/// The button that leads on from a page carries the token of the page after it, and the
/// button that leads back the token of the page before it.
pub proof fn lemma_buttons_name_their_pages(page: int, pages: int, msg_id: int, username: Seq<char>)
    requires
        0 <= page < pages,
        pages > 1,
    ensures
        page < pages - 1 ==> exists|i: int|
            0 <= i < keyboard(page, pages, msg_id, username).len() && #[trigger] keyboard(
                page,
                pages,
                msg_id,
                username,
            )[i] == nav_button(Navigation::Next, page, pages, msg_id, username)
                && nav_button(Navigation::Next, page, pages, msg_id, username).callback_data
                == page_token(msg_id, username, page + 1),
        page > 0 ==> exists|i: int|
            0 <= i < keyboard(page, pages, msg_id, username).len() && #[trigger] keyboard(
                page,
                pages,
                msg_id,
                username,
            )[i] == nav_button(Navigation::Prev, page, pages, msg_id, username)
                && nav_button(Navigation::Prev, page, pages, msg_id, username).callback_data
                == page_token(msg_id, username, page - 1),
{
    let k = keyboard(page, pages, msg_id, username);
    if page < pages - 1 {
        if page == 0 {
            assert(k[0] == nav_button(Navigation::Next, page, pages, msg_id, username));
        } else {
            assert(k[2] == nav_button(Navigation::Next, page, pages, msg_id, username));
        }
    }
    if page > 0 {
        assert(k[1] == nav_button(Navigation::Prev, page, pages, msg_id, username));
    }
}

/// The name under which `user` is kept.
pub fn author_handle(user: &ChatUser) -> (r: String)
    ensures
        r@ == handle(*user),
{
    match &user.username {
        Some(name) => {
            let mut out: Vec<char> = Vec::new();
            out.push('@');
            push_str(&mut out, name.as_str());
            assert(out@ =~= mention(name@));
            from_chars(&out)
        },
        None => user.first_name.clone(),
    }
}

} // verus!
