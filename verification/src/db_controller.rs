use vstd::prelude::*;
use crate::models::{Record, RecordView, User, UserView};
use crate::pagination::{
    clamp_page, clamped_page, lemma_page_in_range, page_count, page_end, page_window,
    total_pages,
};
use crate::seq_util::{lemma_position_bounds, lemma_position_is, position, select};
use crate::store::{
    add_record_error, answered, by_id_and_owner, by_keyword, by_message, by_owner, by_tg_uid,
    by_user_id, by_username, empty_store, forward_error, has_text, joined, kept_name,
    lemma_seen_first, lemma_upserted, met, lemma_user_called, lemma_with_notify, lemma_with_record,
    lemma_without_record, notify_of, page_data, seen_first, store_wf, upserted, user_by_id,
    user_called, user_of, user_refused, with_forward, with_notify, with_record, without_record,
    AnswerView, RequestView, SeenView, StoreError, StoreView,
};
use crate::text::{contains_chars, to_chars};

verus! {

/// How many records one page of a user's list holds.
pub const PAGE_SIZE: usize = 25;

/// How many records a search by key word returns at most.
pub const SEARCH_PAGE_SIZE: usize = 50;

/// A record and its author, as mathematical values.
pub type RowView = (RecordView, Option<UserView>);

/// What a row holds, as mathematical values.
pub open spec fn row_view(row: (Record, Option<User>)) -> RowView {
    (
        row.0@,
        match row.1 {
            Some(user) => Some(user@),
            None => None,
        },
    )
}

/// What rows hold, as mathematical values.
pub open spec fn rows_view(rows: Seq<(Record, Option<User>)>) -> Seq<RowView> {
    Seq::new(rows.len(), |i: int| row_view(rows[i]))
}

/// One page of records, each with its author, and the size of the whole set.
#[derive(Debug)]
pub struct PaginatedRecordData {
    /// How many records the whole set holds.
    pub items_count: usize,
    /// How many pages the whole set makes: at least one.
    pub pages_count: usize,
    /// Which page this is, counted from zero.
    pub current_page: usize,
    /// The records of this page, in the order of the set.
    pub current_data: Vec<(Record, Option<User>)>,
}

/// What a `PaginatedRecordData` holds, as mathematical values.
pub struct PageView {
    pub items_count: int,
    pub pages_count: int,
    pub current_page: int,
    pub rows: Seq<RowView>,
}

impl View for PaginatedRecordData {
    type V = PageView;

    open spec fn view(&self) -> PageView {
        PageView {
            items_count: self.items_count as int,
            pages_count: self.pages_count as int,
            current_page: self.current_page as int,
            rows: rows_view(self.current_data@),
        }
    }
}

/// The page that `paginate` makes of `rows`.
pub open spec fn paginated(rows: Seq<RowView>, page_size: int, requested_page: int) -> PageView {
    let pages = page_count(rows.len() as int, page_size);
    let page = clamped_page(requested_page, pages);
    PageView {
        items_count: rows.len() as int,
        pages_count: pages,
        current_page: page,
        rows: page_window(rows, page, page_size),
    }
}

/// A copy of `row`.
pub fn clone_row(row: &(Record, Option<User>)) -> (r: (Record, Option<User>))
    ensures
        row_view(r) == row_view(*row),
{
    (
        row.0.clone(),
        match &row.1 {
            Some(user) => Some(user.clone()),
            None => None,
        },
    )
}

/// The page `requested_page` of `items`, with `page_size` items on a page. A page beyond the
/// last is the last.
pub fn paginate(
    items: &Vec<(Record, Option<User>)>,
    page_size: usize,
    requested_page: usize,
) -> (data:
    PaginatedRecordData)
    requires
        page_size > 0,
    ensures
        data@ == paginated(rows_view(items@), page_size as int, requested_page as int),
        0 <= data.current_page < data.pages_count,
        data.current_page == if requested_page < data.pages_count {
            requested_page
        } else {
            (data.pages_count - 1) as usize
        },
        data.pages_count == page_count(items.len() as int, page_size as int),
        data.items_count == items.len(),
        data.current_data.len() <= page_size,
{
    let total: usize = items.len();
    let pages: usize = total_pages(total, page_size);
    let page: usize = clamp_page(requested_page, pages);
    proof {
        lemma_page_in_range(total as int, page_size as int, requested_page as int);
    }
    let start: usize = page * page_size;
    let end: usize = if total - start > page_size {
        start + page_size
    } else {
        total
    };
    proof {
        assert((page + 1) * page_size == page * page_size + page_size) by (nonlinear_arith);
        assert(end == page_end(total as int, page as int, page_size as int));
    }
    let mut current_data: Vec<(Record, Option<User>)> = Vec::new();
    let mut i: usize = start;
    while i < end
        invariant
            start <= i <= end <= items.len(),
            current_data.len() == i - start,
            rows_view(current_data@) == rows_view(items@).subrange(start as int, i as int),
        decreases end - i,
    {
        let ghost before = current_data@;
        current_data.push(clone_row(&items[i]));
        i += 1;
        proof {
            let got = rows_view(current_data@);
            let want = rows_view(items@).subrange(start as int, i as int);
            assert(got.len() == want.len());
            assert forall|j: int| 0 <= j < got.len() implies got[j] == want[j] by {
                if j < before.len() {
                    assert(current_data@[j] == before[j]);
                    assert(rows_view(before)[j] == rows_view(items@).subrange(
                        start as int,
                        i as int - 1,
                    )[j]);
                }
            }
            assert(got =~= want);
        }
    }
    PaginatedRecordData { items_count: total, pages_count: pages, current_page: page, current_data }
}

/// The name that is kept for a user seen as `username`.
pub fn kept_username(username: &str) -> (r: Option<String>)
    ensures
        match r {
            Some(name) => kept_name(username@) == Some(name@),
            None => kept_name(username@) is None,
        },
{
    if !username.is_empty() {
        Some(username.to_owned())
    } else {
        None
    }
}

/// What users hold, as mathematical values.
pub open spec fn users_view(users: Seq<User>) -> Seq<UserView> {
    Seq::new(users.len(), |i: int| users[i]@)
}

/// What records hold, as mathematical values.
pub open spec fn records_view(records: Seq<Record>) -> Seq<RecordView> {
    Seq::new(records.len(), |i: int| records[i]@)
}

/// A user as an update shows them: their Telegram id, and the name under which they are kept.
#[derive(Debug)]
pub struct Seen {
    pub tg_uid: i64,
    pub username: String,
}

impl View for Seen {
    type V = SeenView;

    open spec fn view(&self) -> SeenView {
        SeenView { tg_uid: self.tg_uid as int, username: self.username@ }
    }
}

/// A user as an update shows them, if it shows one.
pub open spec fn seen_view(seen: Option<Seen>) -> Option<SeenView> {
    match seen {
        Some(s) => Some(s@),
        None => None,
    }
}

/// The sender of a forward that is to be seen before its author: the sender, unless they are
/// the author.
pub fn seen_before<'a>(from: &'a Option<Seen>, author: &Seen) -> (r: Option<&'a Seen>)
    ensures
        match r {
            Some(sender) => *from == Some(*sender) && sender.tg_uid != author.tg_uid,
            None => from matches Some(sender) ==> sender.tg_uid == author.tg_uid,
        },
{
    match from {
        Some(sender) => if sender.tg_uid != author.tg_uid {
            Some(sender)
        } else {
            None
        },
        None => None,
    }
}

/// What is asked of the store. A request that names a sender takes the sender in first; only
/// a forward, `SetNotify` and `Register` are refused where the store has no id left for them.
#[derive(Debug)]
pub enum StoreRequest {
    /// Record `text`, forwarded by `from`, for its author.
    Record { from: Option<Seen>, author: Seen, text: String },
    /// Switch the notices of the sender on or off.
    SetNotify { sender: Seen, enabled: bool },
    /// Take the sender in.
    Register { sender: Seen },
    /// Take the sender in where the store can.
    Meet { sender: Seen },
    /// Delete the record `id` where it is the sender's.
    Delete { sender: Seen, id: i64 },
    /// Show the page `page` of the records of the user called `username`.
    Page { from: Option<Seen>, username: String, page: usize },
    /// Find the records whose text holds `key_word`.
    Search { key_word: String },
}

impl View for StoreRequest {
    type V = RequestView;

    open spec fn view(&self) -> RequestView {
        match self {
            StoreRequest::Record { from, author, text } => RequestView::Record {
                from: seen_view(*from),
                author: author@,
                text: text@,
            },
            StoreRequest::SetNotify { sender, enabled } => RequestView::SetNotify {
                sender: sender@,
                enabled: *enabled,
            },
            StoreRequest::Register { sender } => RequestView::Register { sender: sender@ },
            StoreRequest::Meet { sender } => RequestView::Meet { sender: sender@ },
            StoreRequest::Delete { sender, id } => RequestView::Delete {
                sender: sender@,
                id: *id as int,
            },
            StoreRequest::Page { from, username, page } => RequestView::Page {
                from: seen_view(*from),
                username: username@,
                page: *page as int,
            },
            StoreRequest::Search { key_word } => RequestView::Search { key_word: key_word@ },
        }
    }
}

/// What the store answers.
#[derive(Debug)]
pub enum StoreAnswer {
    /// The store refused, or failed; nothing was written.
    Failed(StoreError),
    /// The forward was recorded; `notify` says whether its author has notices switched on.
    Recorded { notify: bool },
    /// What was asked was written.
    Written,
    /// The page that was asked for; `None` where no user is called by the name.
    Page(Option<PaginatedRecordData>),
    /// What the search found.
    Found(PaginatedRecordData),
}

impl View for StoreAnswer {
    type V = AnswerView;

    open spec fn view(&self) -> AnswerView {
        match self {
            StoreAnswer::Failed(e) => AnswerView::Failed(*e),
            StoreAnswer::Recorded { notify } => AnswerView::Recorded { notify: *notify },
            StoreAnswer::Written => AnswerView::Written,
            StoreAnswer::Page(page) => AnswerView::Page(
                match page {
                    Some(data) => Some(data@),
                    None => None,
                },
            ),
            StoreAnswer::Found(data) => AnswerView::Found(data@),
        }
    }
}

/// A row more in the rows is a record more among the records that they show.
proof fn lemma_rows_pushed(
    v: StoreView,
    before: Seq<(Record, Option<User>)>,
    row: (Record, Option<User>),
    chosen: Seq<RecordView>,
    record: RecordView,
)
    requires
        rows_view(before) == joined(v, chosen),
        row_view(row) == (record, user_by_id(v, record.user_id)),
    ensures
        rows_view(before.push(row)) == joined(v, chosen.push(record)),
{
    let got = rows_view(before.push(row));
    let want = joined(v, chosen.push(record));
    assert(rows_view(before).len() == before.len());
    assert(joined(v, chosen).len() == chosen.len());
    assert forall|j: int| 0 <= j < want.len() implies got[j] == want[j] by {
        if j < before.len() {
            assert(before.push(row)[j] == before[j]);
            assert(rows_view(before)[j] == row_view(before[j]));
            assert(joined(v, chosen)[j] == want[j]);
        }
    }
    assert(got =~= want);
}

/// The users and the records of the bot, kept in memory in the order in which they were made.
#[derive(Debug)]
pub struct Controller {
    users: Vec<User>,
    records: Vec<Record>,
    next_user_id: i64,
    next_record_id: i64,
}

impl View for Controller {
    type V = StoreView;

    closed spec fn view(&self) -> StoreView {
        StoreView {
            users: users_view(self.users@),
            records: records_view(self.records@),
            next_user_id: self.next_user_id as int,
            next_record_id: self.next_record_id as int,
        }
    }
}

impl Controller {
    /// Whether the store is valid.
    pub open spec fn wf(&self) -> bool {
        store_wf(self@)
    }

    /// Create controller
    pub fn new() -> (c: Self)
        ensures
            c.wf(),
            c@ == empty_store(),
    {
        let c = Controller {
            users: Vec::new(),
            records: Vec::new(),
            next_user_id: 1,
            next_record_id: 1,
        };
        assert(c@.users =~= Seq::empty());
        assert(c@.records =~= Seq::empty());
        c
    }

    /// A store that holds nothing and continues the ids of an earlier one: its first user gets
    /// the id `first_user_id`, its first record the id `first_record_id`. `None` where one of
    /// them is below 1.
    pub fn with_first_ids(first_user_id: i64, first_record_id: i64) -> (r: Option<Self>)
        ensures
            match r {
                Some(c) => {
                    &&& c.wf()
                    &&& first_user_id >= 1
                    &&& first_record_id >= 1
                    &&& c@ == (StoreView {
                        next_user_id: first_user_id as int,
                        next_record_id: first_record_id as int,
                        ..empty_store()
                    })
                },
                None => first_user_id < 1 || first_record_id < 1,
            },
    {
        if first_user_id < 1 || first_record_id < 1 {
            return None;
        }
        let c = Controller {
            users: Vec::new(),
            records: Vec::new(),
            next_user_id: first_user_id,
            next_record_id: first_record_id,
        };
        assert(c@.users =~= Seq::empty());
        assert(c@.records =~= Seq::empty());
        Some(c)
    }

    /// The users, in the order in which the store took them in.
    pub fn users(&self) -> (r: Vec<User>)
        ensures
            users_view(r@) == self@.users,
    {
        let mut r: Vec<User> = Vec::new();
        let mut i: usize = 0;
        while i < self.users.len()
            invariant
                i <= self.users.len(),
                r.len() == i,
                forall|j: int| 0 <= j < i ==> (#[trigger] r@[j])@ == self.users@[j]@,
            decreases self.users.len() - i,
        {
            r.push(self.users[i].clone());
            i += 1;
        }
        assert(users_view(r@) =~= self@.users);
        r
    }

    /// The records, in the order in which they were recorded.
    pub fn records(&self) -> (r: Vec<Record>)
        ensures
            records_view(r@) == self@.records,
    {
        let mut r: Vec<Record> = Vec::new();
        let mut i: usize = 0;
        while i < self.records.len()
            invariant
                i <= self.records.len(),
                r.len() == i,
                forall|j: int| 0 <= j < i ==> (#[trigger] r@[j])@ == self.records@[j]@,
            decreases self.records.len() - i,
        {
            r.push(self.records[i].clone());
            i += 1;
        }
        assert(records_view(r@) =~= self@.records);
        r
    }

    /// Where the user with the Telegram id `tg_uid` stands.
    fn user_index(&self, tg_uid: i64) -> (k: usize)
        ensures
            k == position(self@.users, by_tg_uid(tg_uid as int)),
            k <= self.users.len(),
            self@.users.len() == self.users.len(),
    {
        let mut i: usize = 0;
        while i < self.users.len() && self.users[i].tg_uid != tg_uid
            invariant
                i <= self.users.len(),
                forall|j: int| 0 <= j < i ==> !by_tg_uid(tg_uid as int)(#[trigger] self@.users[j]),
            decreases self.users.len() - i,
        {
            i += 1;
        }
        proof {
            lemma_position_is(self@.users, by_tg_uid(tg_uid as int), i as int);
        }
        i
    }

    /// Sees the user `user_id` as `username`: a user that the store knows gets the new name,
    /// unless that is empty; one that it does not know is added.
    pub fn setup_user(&mut self, user_id: &i64, username: &String) -> (r: Result<User, StoreError>)
        requires
            old(self).wf(),
        ensures
            final(self).wf(),
            match r {
                Ok(user) => {
                    &&& !user_refused(old(self)@, *user_id as int)
                    &&& final(self)@ == upserted(old(self)@, *user_id as int, username@)
                    &&& user_of(final(self)@, *user_id as int) == Some(user@)
                },
                Err(e) => {
                    &&& e == StoreError::Storage
                    &&& user_refused(old(self)@, *user_id as int)
                    &&& final(self)@ == old(self)@
                },
            },
    {
        let k = self.user_index(*user_id);
        proof {
            lemma_position_bounds(self@.users, by_tg_uid(*user_id as int));
            if !user_refused(self@, *user_id as int) {
                lemma_upserted(self@, *user_id as int, username@);
            }
        }
        let ghost before = self@;
        if k < self.users.len() {
            match kept_username(username.as_str()) {
                Some(name) => {
                    let user = User {
                        id: self.users[k].id,
                        tg_uid: self.users[k].tg_uid,
                        username: Some(name),
                        notify: self.users[k].notify,
                    };
                    let copy = user.clone();
                    self.users.set(k, user);
                    assert(self@.users =~= upserted(before, *user_id as int, username@).users);
                    Ok(copy)
                },
                None => Ok(self.users[k].clone()),
            }
        } else if self.next_user_id == i64::MAX {
            Err(StoreError::Storage)
        } else {
            let user = User {
                id: self.next_user_id,
                tg_uid: *user_id,
                username: kept_username(username.as_str()),
                notify: true,
            };
            let copy = user.clone();
            self.users.push(user);
            self.next_user_id = self.next_user_id + 1;
            assert(self@.users =~= upserted(before, *user_id as int, username@).users);
            Ok(copy)
        }
    }

    /// register user when `/start` command called.
    pub fn register_user(&mut self, user_id: &i64, username: &String) -> (r: Result<(), StoreError>)
        requires
            old(self).wf(),
        ensures
            final(self).wf(),
            match r {
                Ok(_) => {
                    &&& !user_refused(old(self)@, *user_id as int)
                    &&& final(self)@ == upserted(old(self)@, *user_id as int, username@)
                },
                Err(e) => {
                    &&& e == StoreError::Storage
                    &&& user_refused(old(self)@, *user_id as int)
                    &&& final(self)@ == old(self)@
                },
            },
    {
        match self.setup_user(user_id, username) {
            Ok(_) => Ok(()),
            Err(e) => Err(e),
        }
    }

    /// update user notify when `/mute` or `/unmute` command called.
    pub fn set_user_notify(&mut self, user_id: &i64, notify: bool) -> (r: Result<(), StoreError>)
        requires
            old(self).wf(),
        ensures
            final(self).wf(),
            r is Ok,
            final(self)@ == with_notify(old(self)@, *user_id as int, notify),
    {
        let k = self.user_index(*user_id);
        proof {
            lemma_with_notify(self@, *user_id as int, notify);
        }
        let ghost before = self@;
        if k < self.users.len() {
            let user = User {
                id: self.users[k].id,
                tg_uid: self.users[k].tg_uid,
                username: match &self.users[k].username {
                    Some(name) => Some(name.clone()),
                    None => None,
                },
                notify,
            };
            self.users.set(k, user);
            assert(self@.users =~= with_notify(before, *user_id as int, notify).users);
        }
        Ok(())
    }

    /// Whether notices go to the user `user_id`.
    pub fn get_user_notify(&self, user_id: &i64) -> (r: Result<bool, StoreError>)
        ensures
            r == Ok::<bool, StoreError>(notify_of(self@, *user_id as int)),
    {
        let k = self.user_index(*user_id);
        if k < self.users.len() {
            Ok(self.users[k].notify)
        } else {
            Ok(false)
        }
    }

    /// The user with the Telegram id `user_id`.
    pub fn get_user(&self, user_id: &i64) -> (r: Result<Option<User>, StoreError>)
        ensures
            match r {
                Ok(Some(user)) => user_of(self@, *user_id as int) == Some(user@),
                Ok(None) => user_of(self@, *user_id as int) is None,
                Err(_) => false,
            },
    {
        let k = self.user_index(*user_id);
        if k < self.users.len() {
            Ok(Some(self.users[k].clone()))
        } else {
            Ok(None)
        }
    }

    /// The first user called `username`. Nothing is written: a name that no user has gives
    /// `None`.
    pub fn get_user_by_username(&self, username: &str) -> (r: Result<Option<User>, StoreError>)
        ensures
            match r {
                Ok(Some(user)) => user_called(self@, username@) == Some(user@),
                Ok(None) => user_called(self@, username@) is None,
                Err(_) => false,
            },
    {
        let wanted = username.to_owned();
        let mut i: usize = 0;
        while i < self.users.len()
            invariant
                i <= self.users.len(),
                wanted@ == username@,
                self@.users.len() == self.users.len(),
                forall|j: int| 0 <= j < i ==> !by_username(username@)(#[trigger] self@.users[j]),
            decreases self.users.len() - i,
        {
            let found = match &self.users[i].username {
                Some(name) => *name == wanted,
                None => false,
            };
            if found {
                proof {
                    lemma_position_is(self@.users, by_username(username@), i as int);
                }
                return Ok(Some(self.users[i].clone()));
            }
            i += 1;
        }
        proof {
            lemma_position_is(self@.users, by_username(username@), i as int);
        }
        Ok(None)
    }

    /// Where the user with the internal id `id` stands.
    fn user_index_by_id(&self, id: i64) -> (k: usize)
        ensures
            k == position(self@.users, by_user_id(id as int)),
            k <= self.users.len(),
            self@.users.len() == self.users.len(),
    {
        let mut i: usize = 0;
        while i < self.users.len() && self.users[i].id != id
            invariant
                i <= self.users.len(),
                forall|j: int| 0 <= j < i ==> !by_user_id(id as int)(#[trigger] self@.users[j]),
            decreases self.users.len() - i,
        {
            i += 1;
        }
        proof {
            lemma_position_is(self@.users, by_user_id(id as int), i as int);
        }
        i
    }

    /// Whether a record with the text `text` exists.
    fn text_recorded(&self, text: &String) -> (r: bool)
        ensures
            r == has_text(self@, text@),
    {
        let mut i: usize = 0;
        while i < self.records.len()
            invariant
                i <= self.records.len(),
                self@.records.len() == self.records.len(),
                forall|j: int| 0 <= j < i ==> !by_message(text@)(#[trigger] self@.records[j]),
            decreases self.records.len() - i,
        {
            if self.records[i].message == *text {
                proof {
                    lemma_position_is(self@.records, by_message(text@), i as int);
                }
                return true;
            }
            i += 1;
        }
        proof {
            lemma_position_is(self@.records, by_message(text@), i as int);
        }
        false
    }

    /// add record forward a message to bot.
    ///
    /// The author `user_id` is seen as `username`, and `text` is recorded as theirs, both or
    /// neither: a text that is recorded already is refused as `Duplicate`, and the store is
    /// left as it was.
    pub fn add_record(&mut self, user_id: i64, username: &String, text: String) -> (r: Result<
        (),
        StoreError,
    >)
        requires
            old(self).wf(),
        ensures
            final(self).wf(),
            match r {
                Ok(_) => {
                    &&& add_record_error(old(self)@, user_id as int, text@) is None
                    &&& final(self)@ == with_record(old(self)@, user_id as int, username@, text@)
                },
                Err(e) => {
                    &&& add_record_error(old(self)@, user_id as int, text@) == Some(e)
                    &&& final(self)@ == old(self)@
                },
            },
    {
        if self.text_recorded(&text) {
            return Err(StoreError::Duplicate);
        }
        let k = self.user_index(user_id);
        if k == self.users.len() && self.next_user_id == i64::MAX {
            return Err(StoreError::Storage);
        }
        if self.next_record_id == i64::MAX {
            return Err(StoreError::Storage);
        }
        let ghost before = self@;
        proof {
            lemma_with_record(before, user_id as int, username@, text@);
            lemma_upserted(before, user_id as int, username@);
        }
        match self.setup_user(&user_id, username) {
            Ok(user) => {
                let ghost seen = self@;
                proof {
                    lemma_position_bounds(seen.users, by_tg_uid(user_id as int));
                }
                let record = Record { id: self.next_record_id, user_id: user.id, message: text };
                self.records.push(record);
                self.next_record_id = self.next_record_id + 1;
                assert(self@.records =~= with_record(
                    before,
                    user_id as int,
                    username@,
                    text@,
                ).records);
                Ok(())
            },
            Err(e) => Err(e),
        }
    }

    /// del record when `/delete` command called.
    ///
    /// The record `id` is removed where the user `user_id` is its author. Nothing is removed,
    /// and nothing fails, where it is another user's or does not exist.
    pub fn del_record(&mut self, id: i64, user_id: i64) -> (r: Result<(), StoreError>)
        requires
            old(self).wf(),
        ensures
            final(self).wf(),
            r is Ok,
            final(self)@ == without_record(old(self)@, id as int, user_id as int),
    {
        let k = self.user_index(user_id);
        proof {
            lemma_without_record(self@, id as int, user_id as int);
        }
        if k < self.users.len() {
            let owner: i64 = self.users[k].id;
            let ghost before = self@;
            let mut i: usize = 0;
            while i < self.records.len() && !(self.records[i].id == id && self.records[i].user_id
                == owner)
                invariant
                    i <= self.records.len(),
                    self@.records.len() == self.records.len(),
                    forall|j: int|
                        0 <= j < i ==> !by_id_and_owner(id as int, owner as int)(
                            #[trigger] self@.records[j],
                        ),
                decreases self.records.len() - i,
            {
                i += 1;
            }
            proof {
                lemma_position_is(
                    self@.records,
                    by_id_and_owner(id as int, owner as int),
                    i as int,
                );
            }
            if i < self.records.len() {
                self.records.remove(i);
                assert(self@.records =~= before.records.remove(i as int));
            }
        }
        Ok(())
    }

    /// The row of the record at `i`: the record and its author.
    fn row_at(&self, i: usize) -> (row: (Record, Option<User>))
        requires
            i < self.records.len(),
        ensures
            row_view(row) == (
                self@.records[i as int],
                user_by_id(self@, self@.records[i as int].user_id),
            ),
    {
        let record = self.records[i].clone();
        let k = self.user_index_by_id(record.user_id);
        let user = if k < self.users.len() {
            Some(self.users[k].clone())
        } else {
            None
        };
        (record, user)
    }

    /// get records when inline query called.
    ///
    /// The first records whose text holds `key_word`, each with its author: one page of
    /// `SEARCH_PAGE_SIZE`.
    pub fn get_records_by_keywords(&self, key_word: &String) -> (r: Result<
        PaginatedRecordData,
        StoreError,
    >)
        ensures
            match r {
                Ok(data) => data@ == paginated(
                    joined(self@, select(self@.records, by_keyword(key_word@))),
                    SEARCH_PAGE_SIZE as int,
                    0,
                ),
                Err(_) => false,
            },
    {
        let needle = to_chars(key_word.as_str());
        let mut rows: Vec<(Record, Option<User>)> = Vec::new();
        let mut i: usize = 0;
        while i < self.records.len()
            invariant
                i <= self.records.len(),
                needle@ == key_word@,
                self@.records.len() == self.records.len(),
                rows_view(rows@) == joined(
                    self@,
                    select(self@.records.subrange(0, i as int), by_keyword(key_word@)),
                ),
            decreases self.records.len() - i,
        {
            let hay = to_chars(self.records[i].message.as_str());
            let ghost upto = self@.records.subrange(0, i as int + 1);
            proof {
                assert(upto.drop_last() =~= self@.records.subrange(0, i as int));
                assert(upto.last() == self@.records[i as int]);
            }
            if contains_chars(&hay, &needle) {
                let ghost before = rows@;
                let row = self.row_at(i);
                let ghost shown = row;
                rows.push(row);
                proof {
                    let prev = select(self@.records.subrange(0, i as int), by_keyword(key_word@));
                    assert(select(upto, by_keyword(key_word@)) == prev.push(self@.records[i as int]));
                    lemma_rows_pushed(self@, before, shown, prev, self@.records[i as int]);
                }
            }
            i += 1;
        }
        assert(self@.records.subrange(0, i as int) =~= self@.records);
        Ok(paginate(&rows, SEARCH_PAGE_SIZE, 0))
    }

    /// get records when `/list` command called or inline button request.
    ///
    /// The page `page` of the records of the user with the internal id `user_id`, in the order
    /// in which they were recorded, with `PAGE_SIZE` on a page; `None` where there is no such
    /// user. A page beyond the last is the last.
    pub fn get_records_by_userid_with_pagination(&self, user_id: i64, page: usize) -> (r: Result<
        Option<PaginatedRecordData>,
        StoreError,
    >)
        ensures
            match r {
                Ok(Some(data)) => {
                    &&& user_by_id(self@, user_id as int) is Some
                    &&& data@ == paginated(
                        joined(self@, select(self@.records, by_owner(user_id as int))),
                        PAGE_SIZE as int,
                        page as int,
                    )
                    &&& 0 <= data.current_page < data.pages_count
                },
                Ok(None) => user_by_id(self@, user_id as int) is None,
                Err(_) => false,
            },
    {
        let k = self.user_index_by_id(user_id);
        if k == self.users.len() {
            return Ok(None);
        }
        let mut rows: Vec<(Record, Option<User>)> = Vec::new();
        let mut i: usize = 0;
        while i < self.records.len()
            invariant
                i <= self.records.len(),
                self@.records.len() == self.records.len(),
                rows_view(rows@) == joined(
                    self@,
                    select(self@.records.subrange(0, i as int), by_owner(user_id as int)),
                ),
            decreases self.records.len() - i,
        {
            let ghost upto = self@.records.subrange(0, i as int + 1);
            proof {
                assert(upto.drop_last() =~= self@.records.subrange(0, i as int));
                assert(upto.last() == self@.records[i as int]);
            }
            if self.records[i].user_id == user_id {
                let ghost before = rows@;
                let row = self.row_at(i);
                let ghost shown = row;
                rows.push(row);
                proof {
                    let prev = select(self@.records.subrange(0, i as int), by_owner(user_id as int));
                    assert(select(upto, by_owner(user_id as int)) == prev.push(self@.records[i as int]));
                    lemma_rows_pushed(self@, before, shown, prev, self@.records[i as int]);
                }
            }
            i += 1;
        }
        assert(self@.records.subrange(0, i as int) =~= self@.records);
        Ok(Some(paginate(&rows, PAGE_SIZE, page)))
    }

    /// Whether the store does not know the user `tg_uid`.
    fn is_unknown(&self, tg_uid: i64) -> (r: bool)
        ensures
            r == (user_of(self@, tg_uid as int) is None),
    {
        let k = self.user_index(tg_uid);
        proof {
            lemma_position_bounds(self@.users, by_tg_uid(tg_uid as int));
        }
        k == self.users.len()
    }

    /// Records `text`, forwarded by `from`, for `author`: the sender is seen, the author is
    /// seen, and the text becomes the author's last record, all or nothing. The result says
    /// whether the author has notices switched on.
    pub fn record_forward(&mut self, from: &Option<Seen>, author: &Seen, text: String) -> (r:
        Result<bool, StoreError>)
        requires
            old(self).wf(),
        ensures
            final(self).wf(),
            match r {
                Ok(notify) => {
                    &&& forward_error(old(self)@, seen_view(*from), author@, text@) is None
                    &&& final(self)@ == with_forward(old(self)@, seen_view(*from), author@, text@)
                    &&& notify == notify_of(final(self)@, author.tg_uid as int)
                },
                Err(e) => {
                    &&& forward_error(old(self)@, seen_view(*from), author@, text@) == Some(e)
                    &&& final(self)@ == old(self)@
                },
            },
    {
        let ghost before = self@;
        if self.text_recorded(&text) {
            return Err(StoreError::Duplicate);
        }
        let first = seen_before(from, author);
        let sender_new: bool = match first {
            Some(sender) => self.is_unknown(sender.tg_uid),
            None => false,
        };
        if sender_new && self.next_user_id == i64::MAX {
            return Err(StoreError::Storage);
        }
        proof {
            lemma_seen_first(before, seen_view(*from), author@);
        }
        let author_new = self.is_unknown(author.tg_uid);
        let next_user: i64 = if sender_new {
            self.next_user_id + 1
        } else {
            self.next_user_id
        };
        if author_new && next_user == i64::MAX {
            return Err(StoreError::Storage);
        }
        if self.next_record_id == i64::MAX {
            return Err(StoreError::Storage);
        }
        match first {
            Some(sender) => {
                match self.register_user(&sender.tg_uid, &sender.username) {
                    Ok(_) => {},
                    Err(e) => {
                        return Err(e);
                    },
                }
            },
            None => {},
        }
        assert(self@ == seen_first(before, seen_view(*from), author@));
        match self.add_record(author.tg_uid, &author.username, text) {
            Ok(_) => {},
            Err(e) => {
                return Err(e);
            },
        }
        match self.get_user_notify(&author.tg_uid) {
            Ok(notify) => Ok(notify),
            Err(e) => Err(e),
        }
    }

    /// The page `page` of the records of the user called `username`; `None` where no user is
    /// called so.
    pub fn page(&self, username: &str, page: usize) -> (r: Option<PaginatedRecordData>)
        ensures
            match r {
                Some(data) => {
                    &&& page_data(self@, username@, page as int) == Some(data@)
                    &&& 0 <= data.current_page < data.pages_count
                },
                None => page_data(self@, username@, page as int) is None,
            },
    {
        let someone = match self.get_user_by_username(username) {
            Ok(Some(someone)) => someone,
            Ok(None) => {
                return None;
            },
            Err(_) => {
                return None;
            },
        };
        proof {
            lemma_user_called(self@, username@);
        }
        match self.get_records_by_userid_with_pagination(someone.id, page) {
            Ok(Some(data)) => Some(data),
            Ok(None) => None,
            Err(_) => None,
        }
    }

    /// Meets `sender`: takes them in where the store can, and leaves the store as it was where
    /// it has no id left for them.
    pub fn meet(&mut self, sender: &Seen)
        requires
            old(self).wf(),
        ensures
            final(self).wf(),
            final(self)@ == met(old(self)@, sender@),
    {
        match self.register_user(&sender.tg_uid, &sender.username) {
            Ok(_) => {},
            Err(_) => {},
        }
    }

    /// Does what `request` asks, and answers.
    pub fn answer(&mut self, request: StoreRequest) -> (a: StoreAnswer)
        requires
            old(self).wf(),
        ensures
            final(self).wf(),
            (final(self)@, a@) == answered(old(self)@, request@),
    {
        match request {
            StoreRequest::Record { from, author, text } => {
                match self.record_forward(&from, &author, text) {
                    Ok(notify) => StoreAnswer::Recorded { notify },
                    Err(e) => StoreAnswer::Failed(e),
                }
            },
            StoreRequest::SetNotify { sender, enabled } => {
                match self.register_user(&sender.tg_uid, &sender.username) {
                    Ok(_) => {},
                    Err(e) => {
                        return StoreAnswer::Failed(e);
                    },
                }
                match self.set_user_notify(&sender.tg_uid, enabled) {
                    Ok(_) => StoreAnswer::Written,
                    Err(e) => StoreAnswer::Failed(e),
                }
            },
            StoreRequest::Register { sender } => {
                match self.register_user(&sender.tg_uid, &sender.username) {
                    Ok(_) => StoreAnswer::Written,
                    Err(e) => StoreAnswer::Failed(e),
                }
            },
            StoreRequest::Meet { sender } => {
                self.meet(&sender);
                StoreAnswer::Written
            },
            StoreRequest::Delete { sender, id } => {
                self.meet(&sender);
                match self.del_record(id, sender.tg_uid) {
                    Ok(_) => StoreAnswer::Written,
                    Err(e) => StoreAnswer::Failed(e),
                }
            },
            StoreRequest::Page { from, username, page } => {
                match from {
                    Some(sender) => {
                        self.meet(&sender);
                    },
                    None => {},
                }
                StoreAnswer::Page(self.page(username.as_str(), page))
            },
            StoreRequest::Search { key_word } => {
                match self.get_records_by_keywords(&key_word) {
                    Ok(data) => StoreAnswer::Found(data),
                    Err(e) => StoreAnswer::Failed(e),
                }
            },
        }
    }
}

} // verus!
