use vstd::prelude::*;

verus! {

/// A chat-platform user known to the bot.
#[derive(Debug)]
pub struct User {
    /// Internal id, assigned by the store.
    pub id: i64,
    /// Telegram user id.
    pub tg_uid: i64,
    /// Last known `@handle` or display name.
    pub username: Option<String>,
    /// Whether the user is told when one of their messages is recorded.
    pub notify: bool,
}

/// What a `User` holds, as mathematical values.
pub struct UserView {
    pub id: int,
    pub tg_uid: int,
    pub username: Option<Seq<char>>,
    pub notify: bool,
}

impl View for User {
    type V = UserView;

    open spec fn view(&self) -> UserView {
        UserView {
            id: self.id as int,
            tg_uid: self.tg_uid as int,
            username: match self.username {
                Some(name) => Some(name@),
                None => None,
            },
            notify: self.notify,
        }
    }
}

impl Clone for User {
    fn clone(&self) -> (r: Self)
        ensures
            r@ == self@,
    {
        User {
            id: self.id,
            tg_uid: self.tg_uid,
            username: match &self.username {
                Some(name) => Some(name.clone()),
                None => None,
            },
            notify: self.notify,
        }
    }
}

/// A recorded message, attributed to the user who wrote it.
#[derive(Debug)]
pub struct Record {
    /// Internal id, assigned by the store.
    pub id: i64,
    /// Internal id of the author.
    pub user_id: i64,
    /// The recorded text.
    pub message: String,
}

/// What a `Record` holds, as mathematical values.
pub struct RecordView {
    pub id: int,
    pub user_id: int,
    pub message: Seq<char>,
}

impl View for Record {
    type V = RecordView;

    open spec fn view(&self) -> RecordView {
        RecordView { id: self.id as int, user_id: self.user_id as int, message: self.message@ }
    }
}

impl Clone for Record {
    fn clone(&self) -> (r: Self)
        ensures
            r@ == self@,
    {
        Record { id: self.id, user_id: self.user_id, message: self.message.clone() }
    }
}

} // verus!
