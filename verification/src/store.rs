use vstd::prelude::*;
use crate::db_controller::{paginated, PageView, RowView, PAGE_SIZE, SEARCH_PAGE_SIZE};
use crate::models::{RecordView, UserView};
use crate::seq_util::{lemma_position_bounds, lemma_position_is, position, select};
use crate::text::contains_seq;

verus! {

/// Why the store refused an operation.
#[derive(Debug, Clone, Copy, PartialEq, Eq, Structural)]
pub enum StoreError {
    /// The store cannot hold what was to be written.
    Storage,
    /// A record with this text exists already.
    Duplicate,
}

/// What the store holds, as mathematical values: the users and the records in the order in
/// which they were made, and the ids that the next user and the next record get.
pub struct StoreView {
    pub users: Seq<UserView>,
    pub records: Seq<RecordView>,
    pub next_user_id: int,
    pub next_record_id: int,
}

/// Users by their Telegram id.
pub open spec fn by_tg_uid(tg_uid: int) -> spec_fn(UserView) -> bool {
    |u: UserView| u.tg_uid == tg_uid
}

/// Users by their internal id.
pub open spec fn by_user_id(id: int) -> spec_fn(UserView) -> bool {
    |u: UserView| u.id == id
}

/// Users by their name.
pub open spec fn by_username(name: Seq<char>) -> spec_fn(UserView) -> bool {
    |u: UserView| u.username == Some(name)
}

/// Records by their text.
pub open spec fn by_message(text: Seq<char>) -> spec_fn(RecordView) -> bool {
    |r: RecordView| r.message == text
}

/// Records by their id and their author.
pub open spec fn by_id_and_owner(id: int, owner: int) -> spec_fn(RecordView) -> bool {
    |r: RecordView| r.id == id && r.user_id == owner
}

/// The store that holds nothing, and gives its first user and its first record the id 1.
pub open spec fn empty_store() -> StoreView {
    StoreView { users: Seq::empty(), records: Seq::empty(), next_user_id: 1, next_record_id: 1 }
}

/// What a valid store holds: ids below the next ones, no two users with one id or one Telegram
/// id, no two records with one id or one text, and for every record its author.
pub open spec fn store_wf(v: StoreView) -> bool {
    &&& 1 <= v.next_user_id <= i64::MAX
    &&& 1 <= v.next_record_id <= i64::MAX
    &&& forall|i: int|
        0 <= i < v.users.len() ==> 1 <= (#[trigger] v.users[i]).id < v.next_user_id
    &&& forall|i: int, j: int|
        0 <= i < v.users.len() && 0 <= j < v.users.len() && i != j ==> (#[trigger] v.users[i]).id
            != (#[trigger] v.users[j]).id && v.users[i].tg_uid != v.users[j].tg_uid
    &&& forall|i: int|
        0 <= i < v.records.len() ==> 1 <= (#[trigger] v.records[i]).id < v.next_record_id
    &&& forall|i: int, j: int|
        0 <= i < v.records.len() && 0 <= j < v.records.len() && i != j ==> (
        #[trigger] v.records[i]).id != (#[trigger] v.records[j]).id && v.records[i].message
            != v.records[j].message
    &&& forall|i: int|
        0 <= i < v.records.len() ==> position(
            v.users,
            by_user_id((#[trigger] v.records[i]).user_id),
        ) < v.users.len()
}

/// The user with the Telegram id `tg_uid`, if the store knows one.
pub open spec fn user_of(v: StoreView, tg_uid: int) -> Option<UserView> {
    let k = position(v.users, by_tg_uid(tg_uid));
    if k < v.users.len() {
        Some(v.users[k])
    } else {
        None
    }
}

/// The user with the internal id `id`, if there is one.
pub open spec fn user_by_id(v: StoreView, id: int) -> Option<UserView> {
    let k = position(v.users, by_user_id(id));
    if k < v.users.len() {
        Some(v.users[k])
    } else {
        None
    }
}

/// The first user called `name`, if there is one.
pub open spec fn user_called(v: StoreView, name: Seq<char>) -> Option<UserView> {
    let k = position(v.users, by_username(name));
    if k < v.users.len() {
        Some(v.users[k])
    } else {
        None
    }
}

/// Whether the store cannot take the user `tg_uid` in: it does not know them and has no id
/// left.
pub open spec fn user_refused(v: StoreView, tg_uid: int) -> bool {
    user_of(v, tg_uid) is None && v.next_user_id >= i64::MAX
}

/// The name that is kept for a user seen as `username`: the name itself, none where it is
/// empty.
pub open spec fn kept_name(username: Seq<char>) -> Option<Seq<char>> {
    if username.len() > 0 {
        Some(username)
    } else {
        None
    }
}

/// The store after the user `tg_uid` was seen as `username`: a user that it knows has the new
/// name, unless that is empty; one that it does not know is added, with the next id and with
/// notices switched on.
pub open spec fn upserted(v: StoreView, tg_uid: int, username: Seq<char>) -> StoreView {
    let k = position(v.users, by_tg_uid(tg_uid));
    if k < v.users.len() {
        if username.len() > 0 {
            StoreView {
                users: v.users.update(k, UserView { username: Some(username), ..v.users[k] }),
                ..v
            }
        } else {
            v
        }
    } else {
        StoreView {
            users: v.users.push(
                UserView {
                    id: v.next_user_id,
                    tg_uid,
                    username: kept_name(username),
                    notify: true,
                },
            ),
            next_user_id: v.next_user_id + 1,
            ..v
        }
    }
}

/// The store after the user `tg_uid` switched notices on or off; a user that it does not know
/// changes nothing.
pub open spec fn with_notify(v: StoreView, tg_uid: int, notify: bool) -> StoreView {
    let k = position(v.users, by_tg_uid(tg_uid));
    if k < v.users.len() {
        StoreView { users: v.users.update(k, UserView { notify, ..v.users[k] }), ..v }
    } else {
        v
    }
}

/// Whether notices go to the user `tg_uid`: as they chose, and not where the store does not
/// know them.
pub open spec fn notify_of(v: StoreView, tg_uid: int) -> bool {
    match user_of(v, tg_uid) {
        Some(u) => u.notify,
        None => false,
    }
}

/// Seeing a user keeps a valid store valid, keeps every record, and leaves the user known.
pub proof fn lemma_upserted(v: StoreView, tg_uid: int, username: Seq<char>)
    requires
        store_wf(v),
        !user_refused(v, tg_uid),
        i64::MIN <= tg_uid <= i64::MAX,
    ensures
        store_wf(upserted(v, tg_uid, username)),
        upserted(v, tg_uid, username).records == v.records,
        upserted(v, tg_uid, username).next_record_id == v.next_record_id,
        upserted(v, tg_uid, username).users.len() >= v.users.len(),
        forall|id: int| user_by_id(v, id) is Some ==> user_by_id(upserted(v, tg_uid, username), id) is Some,
        position(upserted(v, tg_uid, username).users, by_tg_uid(tg_uid)) == position(v.users, by_tg_uid(tg_uid)),
        user_of(upserted(v, tg_uid, username), tg_uid) is Some,
{
    let w = upserted(v, tg_uid, username);
    let k = position(v.users, by_tg_uid(tg_uid));
    lemma_position_bounds(v.users, by_tg_uid(tg_uid));
    assert forall|j: int| 0 <= j < k implies !by_tg_uid(tg_uid)(#[trigger] w.users[j]) by {
        assert(!by_tg_uid(tg_uid)(v.users[j]));
    }
    lemma_position_is(w.users, by_tg_uid(tg_uid), k);
    assert forall|id: int| user_by_id(v, id) is Some implies user_by_id(w, id) is Some by {
        let p = position(v.users, by_user_id(id));
        lemma_position_bounds(v.users, by_user_id(id));
        lemma_position_bounds(w.users, by_user_id(id));
        assert(by_user_id(id)(w.users[p]));
    }
    assert forall|i: int| 0 <= i < w.records.len() implies position(
        w.users,
        by_user_id((#[trigger] w.records[i]).user_id),
    ) < w.users.len() by {
        assert(user_by_id(v, v.records[i].user_id) is Some);
    }
}

/// Switching notices keeps a valid store valid and keeps every record.
pub proof fn lemma_with_notify(v: StoreView, tg_uid: int, notify: bool)
    requires
        store_wf(v),
    ensures
        store_wf(with_notify(v, tg_uid, notify)),
        with_notify(v, tg_uid, notify).records == v.records,
        user_of(v, tg_uid) is Some ==> notify_of(with_notify(v, tg_uid, notify), tg_uid) == notify,
        user_of(v, tg_uid) is Some ==> user_of(with_notify(v, tg_uid, notify), tg_uid) is Some,
{
    let w = with_notify(v, tg_uid, notify);
    let k = position(v.users, by_tg_uid(tg_uid));
    lemma_position_bounds(v.users, by_tg_uid(tg_uid));
    if k < v.users.len() {
        assert forall|j: int| 0 <= j < k implies !by_tg_uid(tg_uid)(#[trigger] w.users[j]) by {
            assert(!by_tg_uid(tg_uid)(v.users[j]));
        }
        lemma_position_is(w.users, by_tg_uid(tg_uid), k);
        assert forall|i: int| 0 <= i < w.records.len() implies position(
            w.users,
            by_user_id((#[trigger] w.records[i]).user_id),
        ) < w.users.len() by {
            let id = v.records[i].user_id;
            let p = position(v.users, by_user_id(id));
            lemma_position_bounds(v.users, by_user_id(id));
            lemma_position_bounds(w.users, by_user_id(id));
            assert(by_user_id(id)(w.users[p]));
        }
    }
}

/// Whether a record with the text `text` exists.
pub open spec fn has_text(v: StoreView, text: Seq<char>) -> bool {
    position(v.records, by_message(text)) < v.records.len()
}

/// Why the store refuses to record `text` for the user `tg_uid`: the text is recorded already,
/// or the store has no id left for the user or for the record. `None` where it takes the
/// record.
pub open spec fn add_record_error(
    v: StoreView,
    tg_uid: int,
    text: Seq<char>,
) -> Option<StoreError> {
    if has_text(v, text) {
        Some(StoreError::Duplicate)
    } else if user_refused(v, tg_uid) {
        Some(StoreError::Storage)
    } else if v.next_record_id >= i64::MAX {
        Some(StoreError::Storage)
    } else {
        None
    }
}

/// The store after `text` was recorded for the user `tg_uid`, seen as `username`: the user is
/// known, and the record stands last, with the next id.
pub open spec fn with_record(
    v: StoreView,
    tg_uid: int,
    username: Seq<char>,
    text: Seq<char>,
) -> StoreView {
    let u = upserted(v, tg_uid, username);
    let owner = u.users[position(u.users, by_tg_uid(tg_uid))];
    StoreView {
        records: u.records.push(
            RecordView { id: u.next_record_id, user_id: owner.id, message: text },
        ),
        next_record_id: u.next_record_id + 1,
        ..u
    }
}

/// The store after the user `tg_uid` asked to delete the record `id`: the record is gone where
/// it is theirs; nothing changes where it is not, or where the store does not know the user.
pub open spec fn without_record(v: StoreView, id: int, tg_uid: int) -> StoreView {
    match user_of(v, tg_uid) {
        Some(owner) => {
            let k = position(v.records, by_id_and_owner(id, owner.id));
            if k < v.records.len() {
                StoreView { records: v.records.remove(k), ..v }
            } else {
                v
            }
        },
        None => v,
    }
}

/// Records by their author.
pub open spec fn by_owner(owner: int) -> spec_fn(RecordView) -> bool {
    |r: RecordView| r.user_id == owner
}

/// Records by a key word in their text.
pub open spec fn by_keyword(key_word: Seq<char>) -> spec_fn(RecordView) -> bool {
    |r: RecordView| contains_seq(r.message, key_word)
}

/// Each record with its author.
pub open spec fn joined(v: StoreView, records: Seq<RecordView>) -> Seq<RowView> {
    Seq::new(records.len(), |i: int| (records[i], user_by_id(v, records[i].user_id)))
}

/// Recording a text keeps a valid store valid.
pub proof fn lemma_with_record(v: StoreView, tg_uid: int, username: Seq<char>, text: Seq<char>)
    requires
        store_wf(v),
        add_record_error(v, tg_uid, text) is None,
        i64::MIN <= tg_uid <= i64::MAX,
    ensures
        store_wf(with_record(v, tg_uid, username, text)),
{
    let u = upserted(v, tg_uid, username);
    let w = with_record(v, tg_uid, username, text);
    lemma_upserted(v, tg_uid, username);
    lemma_position_bounds(u.users, by_tg_uid(tg_uid));
    lemma_position_bounds(v.records, by_message(text));
    let k = position(u.users, by_tg_uid(tg_uid));
    let owner = u.users[k];
    assert forall|i: int, j: int|
        0 <= i < w.records.len() && 0 <= j < w.records.len() && i != j implies (
    #[trigger] w.records[i]).id != (#[trigger] w.records[j]).id && w.records[i].message
        != w.records[j].message by {
        if i < v.records.len() {
            assert(!by_message(text)(v.records[i]));
        }
        if j < v.records.len() {
            assert(!by_message(text)(v.records[j]));
        }
    }
    assert forall|i: int| 0 <= i < w.records.len() implies position(
        w.users,
        by_user_id((#[trigger] w.records[i]).user_id),
    ) < w.users.len() by {
        if i == v.records.len() {
            lemma_position_bounds(w.users, by_user_id(owner.id));
            assert(by_user_id(owner.id)(w.users[k]));
        } else {
            assert(w.records[i] == u.records[i]);
        }
    }
}

/// Deleting a record keeps a valid store valid.
pub proof fn lemma_without_record(v: StoreView, id: int, tg_uid: int)
    requires
        store_wf(v),
    ensures
        store_wf(without_record(v, id, tg_uid)),
        without_record(v, id, tg_uid).users == v.users,
{
    let w = without_record(v, id, tg_uid);
    if user_of(v, tg_uid) is Some {
        let owner = user_of(v, tg_uid)->0;
        let k = position(v.records, by_id_and_owner(id, owner.id));
        lemma_position_bounds(v.records, by_id_and_owner(id, owner.id));
        if k < v.records.len() {
            assert(w.records == v.records.remove(k));
            assert forall|i: int| 0 <= i < w.records.len() implies 1 <= (
            #[trigger] w.records[i]).id < w.next_record_id by {
                let src = if i < k {
                    i
                } else {
                    i + 1
                };
                assert(w.records[i] == v.records[src]);
            }
            assert forall|i: int, j: int|
                0 <= i < w.records.len() && 0 <= j < w.records.len() && i != j implies (
            #[trigger] w.records[i]).id != (#[trigger] w.records[j]).id && w.records[i].message
                != w.records[j].message by {
                let si = if i < k {
                    i
                } else {
                    i + 1
                };
                let sj = if j < k {
                    j
                } else {
                    j + 1
                };
                assert(w.records[i] == v.records[si]);
                assert(w.records[j] == v.records[sj]);
            }
            assert forall|i: int| 0 <= i < w.records.len() implies position(
                w.users,
                by_user_id((#[trigger] w.records[i]).user_id),
            ) < w.users.len() by {
                let src = if i < k {
                    i
                } else {
                    i + 1
                };
                assert(w.records[i] == v.records[src]);
            }
        }
    }
}

/// A text that the store took is recorded once more than before, as its last record; and
/// recording the same text again, for whichever user, is refused as a duplicate.
pub proof fn lemma_second_record_is_duplicate(
    v: StoreView,
    tg_uid: int,
    username: Seq<char>,
    text: Seq<char>,
    other_tg_uid: int,
)
    requires
        store_wf(v),
        i64::MIN <= tg_uid <= i64::MAX,
        add_record_error(v, tg_uid, text) is None,
    ensures
        with_record(v, tg_uid, username, text).records.len() == v.records.len() + 1,
        with_record(v, tg_uid, username, text).records.drop_last() == v.records,
        with_record(v, tg_uid, username, text).records.last().message == text,
        add_record_error(with_record(v, tg_uid, username, text), other_tg_uid, text) == Some(
            StoreError::Duplicate,
        ),
{
    let w = with_record(v, tg_uid, username, text);
    lemma_upserted(v, tg_uid, username);
    assert(w.records.drop_last() =~= v.records);
    lemma_position_bounds(w.records, by_message(text));
    assert(by_message(text)(w.records[w.records.len() - 1]));
}

/// A user who asks to delete a record that is not theirs removes nothing: the store stays as
/// it was.
pub proof fn lemma_delete_of_another(v: StoreView, id: int, tg_uid: int)
    requires
        store_wf(v),
        forall|i: int|
            0 <= i < v.records.len() && (#[trigger] v.records[i]).id == id ==> user_of(v, tg_uid)
                != user_by_id(v, v.records[i].user_id),
    ensures
        without_record(v, id, tg_uid) == v,
{
    if user_of(v, tg_uid) is Some {
        let owner = user_of(v, tg_uid)->0;
        let k = position(v.records, by_id_and_owner(id, owner.id));
        lemma_position_bounds(v.records, by_id_and_owner(id, owner.id));
        if k < v.records.len() {
            let t = position(v.users, by_tg_uid(tg_uid));
            lemma_position_bounds(v.users, by_tg_uid(tg_uid));
            let p = position(v.users, by_user_id(owner.id));
            lemma_position_bounds(v.users, by_user_id(owner.id));
            assert(by_user_id(owner.id)(v.users[t]));
            assert(p == t);
            assert(v.records[k].id == id);
        }
    }
}

/// Recording a text leaves every user's choice of notices as it was.
pub proof fn lemma_with_record_keeps_notify(
    v: StoreView,
    tg_uid: int,
    username: Seq<char>,
    text: Seq<char>,
    other_tg_uid: int,
)
    requires
        store_wf(v),
        i64::MIN <= tg_uid <= i64::MAX,
        add_record_error(v, tg_uid, text) is None,
        user_of(v, other_tg_uid) is Some,
    ensures
        notify_of(with_record(v, tg_uid, username, text), other_tg_uid) == notify_of(v, other_tg_uid),
        user_of(with_record(v, tg_uid, username, text), other_tg_uid) is Some,
{
    let w = with_record(v, tg_uid, username, text);
    let k = position(v.users, by_tg_uid(other_tg_uid));
    lemma_position_bounds(v.users, by_tg_uid(other_tg_uid));
    lemma_position_bounds(v.users, by_tg_uid(tg_uid));
    lemma_upserted(v, tg_uid, username);
    assert forall|j: int| 0 <= j < k implies !by_tg_uid(other_tg_uid)(#[trigger] w.users[j]) by {
        assert(!by_tg_uid(other_tg_uid)(v.users[j]));
    }
    assert(by_tg_uid(other_tg_uid)(w.users[k]));
    lemma_position_is(w.users, by_tg_uid(other_tg_uid), k);
}

/// A user as an update shows them: their Telegram id, and the name under which they are kept.
pub struct SeenView {
    pub tg_uid: int,
    pub username: Seq<char>,
}

/// Seeing one user leaves every other user as they were.
pub proof fn lemma_upserted_keeps_others(v: StoreView, tg_uid: int, username: Seq<char>, other: int)
    requires
        store_wf(v),
        !user_refused(v, tg_uid),
        other != tg_uid,
    ensures
        user_of(upserted(v, tg_uid, username), other) == user_of(v, other),
{
    let w = upserted(v, tg_uid, username);
    let k = position(v.users, by_tg_uid(other));
    lemma_position_bounds(v.users, by_tg_uid(other));
    lemma_position_bounds(v.users, by_tg_uid(tg_uid));
    assert forall|j: int| 0 <= j < k implies !by_tg_uid(other)(#[trigger] w.users[j]) by {
        assert(!by_tg_uid(other)(v.users[j]));
    }
    if k < v.users.len() {
        assert(by_tg_uid(other)(w.users[k]));
        lemma_position_is(w.users, by_tg_uid(other), k);
    } else {
        assert forall|j: int| 0 <= j < w.users.len() implies !by_tg_uid(other)(
            #[trigger] w.users[j],
        ) by {
            if j < v.users.len() {
                assert(!by_tg_uid(other)(v.users[j]));
            }
        }
        lemma_position_is(w.users, by_tg_uid(other), w.users.len() as int);
    }
}

/// The store after the sender of a forward was seen. A sender who is the author is seen with
/// the author, not before.
pub open spec fn seen_first(v: StoreView, sender: Option<SeenView>, author: SeenView) -> StoreView {
    match sender {
        Some(s) => if s.tg_uid != author.tg_uid {
            upserted(v, s.tg_uid, s.username)
        } else {
            v
        },
        None => v,
    }
}

/// Whether the store cannot take the sender of a forward in.
pub open spec fn sender_refused(v: StoreView, sender: Option<SeenView>, author: SeenView) -> bool {
    match sender {
        Some(s) => s.tg_uid != author.tg_uid && user_refused(v, s.tg_uid),
        None => false,
    }
}

/// Why the store refuses a forward: its text is recorded already, or the store has no id left
/// for the sender, for the author or for the record. `None` where it takes the forward.
pub open spec fn forward_error(
    v: StoreView,
    sender: Option<SeenView>,
    author: SeenView,
    text: Seq<char>,
) -> Option<StoreError> {
    if has_text(v, text) {
        Some(StoreError::Duplicate)
    } else if sender_refused(v, sender, author) {
        Some(StoreError::Storage)
    } else {
        add_record_error(seen_first(v, sender, author), author.tg_uid, text)
    }
}

/// The store after a forward: its sender is known, its author is known, and the text is the
/// author's last record.
pub open spec fn with_forward(
    v: StoreView,
    sender: Option<SeenView>,
    author: SeenView,
    text: Seq<char>,
) -> StoreView {
    with_record(seen_first(v, sender, author), author.tg_uid, author.username, text)
}

/// Seeing the sender of a forward keeps a valid store valid and keeps every record.
pub proof fn lemma_seen_first(v: StoreView, sender: Option<SeenView>, author: SeenView)
    requires
        store_wf(v),
        !sender_refused(v, sender, author),
        sender matches Some(s) ==> i64::MIN <= s.tg_uid <= i64::MAX,
    ensures
        store_wf(seen_first(v, sender, author)),
        seen_first(v, sender, author).records == v.records,
        seen_first(v, sender, author).next_record_id == v.next_record_id,
        user_of(seen_first(v, sender, author), author.tg_uid) == user_of(v, author.tg_uid),
        seen_first(v, sender, author).next_user_id >= v.next_user_id,
        seen_first(v, sender, author).next_user_id == v.next_user_id + if sender is Some
            && sender->0.tg_uid != author.tg_uid && user_of(v, sender->0.tg_uid) is None {
            1int
        } else {
            0int
        },
{
    match sender {
        Some(s) => {
            if s.tg_uid != author.tg_uid {
                lemma_upserted(v, s.tg_uid, s.username);
                lemma_upserted_keeps_others(v, s.tg_uid, s.username, author.tg_uid);
            }
        },
        None => {},
    }
}

/// The store after a sender was met: taken in where the store can take them in, and left as
/// it was where it has no id left for them.
pub open spec fn met(v: StoreView, sender: SeenView) -> StoreView {
    if user_refused(v, sender.tg_uid) {
        v
    } else {
        upserted(v, sender.tg_uid, sender.username)
    }
}

/// Meeting a sender keeps a valid store valid and keeps every record.
pub proof fn lemma_met(v: StoreView, sender: SeenView)
    requires
        store_wf(v),
        i64::MIN <= sender.tg_uid <= i64::MAX,
    ensures
        store_wf(met(v, sender)),
        met(v, sender).records == v.records,
        user_of(v, sender.tg_uid) is Some ==> user_of(met(v, sender), sender.tg_uid) is Some,
{
    if !user_refused(v, sender.tg_uid) {
        lemma_upserted(v, sender.tg_uid, sender.username);
    }
}

/// What is asked of the store, as mathematical values.
pub enum RequestView {
    Meet { sender: SeenView },
    Record { from: Option<SeenView>, author: SeenView, text: Seq<char> },
    SetNotify { sender: SeenView, enabled: bool },
    Register { sender: SeenView },
    Delete { sender: SeenView, id: int },
    Page { from: Option<SeenView>, username: Seq<char>, page: int },
    Search { key_word: Seq<char> },
}

/// What the store answers, as mathematical values.
pub enum AnswerView {
    Failed(StoreError),
    Recorded { notify: bool },
    Written,
    Page(Option<PageView>),
    Found(PageView),
}

/// The page `page` of the records of the user called `username`; `None` where no user is
/// called so.
pub open spec fn page_data(v: StoreView, username: Seq<char>, page: int) -> Option<PageView> {
    match user_called(v, username) {
        Some(user) => Some(
            paginated(joined(v, select(v.records, by_owner(user.id))), PAGE_SIZE as int, page),
        ),
        None => None,
    }
}

/// The first records whose text holds `key_word`.
pub open spec fn search_data(v: StoreView, key_word: Seq<char>) -> PageView {
    paginated(joined(v, select(v.records, by_keyword(key_word))), SEARCH_PAGE_SIZE as int, 0)
}

/// The store after a request, and its answer. A request that names a sender takes the sender
/// in first: a forward, `SetNotify` and `Register` are refused where the store has no id left
/// for them, the other requests go on without. A request that the store refuses changes
/// nothing.
pub open spec fn answered(v: StoreView, request: RequestView) -> (StoreView, AnswerView) {
    match request {
        RequestView::Record { from: sender, author, text } => match forward_error(
            v,
            sender,
            author,
            text,
        ) {
            Some(e) => (v, AnswerView::Failed(e)),
            None => {
                let w = with_forward(v, sender, author, text);
                (w, AnswerView::Recorded { notify: notify_of(w, author.tg_uid) })
            },
        },
        RequestView::SetNotify { sender, enabled } => if user_refused(v, sender.tg_uid) {
            (v, AnswerView::Failed(StoreError::Storage))
        } else {
            (
                with_notify(upserted(v, sender.tg_uid, sender.username), sender.tg_uid, enabled),
                AnswerView::Written,
            )
        },
        RequestView::Register { sender } => if user_refused(v, sender.tg_uid) {
            (v, AnswerView::Failed(StoreError::Storage))
        } else {
            (upserted(v, sender.tg_uid, sender.username), AnswerView::Written)
        },
        RequestView::Meet { sender } => (met(v, sender), AnswerView::Written),
        RequestView::Delete { sender, id } => (
            without_record(met(v, sender), id, sender.tg_uid),
            AnswerView::Written,
        ),
        RequestView::Page { from: sender, username, page } => match sender {
            Some(s) => (met(v, s), AnswerView::Page(page_data(met(v, s), username, page))),
            None => (v, AnswerView::Page(page_data(v, username, page))),
        },
        RequestView::Search { key_word } => (v, AnswerView::Found(search_data(v, key_word))),
    }
}

/// A user that is called by a name is a user of the store.
pub proof fn lemma_user_called(v: StoreView, username: Seq<char>)
    requires
        user_called(v, username) is Some,
    ensures
        user_by_id(v, user_called(v, username)->0.id) is Some,
{
    let user = user_called(v, username)->0;
    lemma_position_bounds(v.users, by_username(username));
    lemma_position_bounds(v.users, by_user_id(user.id));
}

/// A forward that the store takes makes its sender and its author known, and adds one record,
/// the author's; a forward that it refuses changes nothing.
pub proof fn lemma_forward_sees_both(
    v: StoreView,
    sender: Option<SeenView>,
    author: SeenView,
    text: Seq<char>,
)
    requires
        store_wf(v),
        i64::MIN <= author.tg_uid <= i64::MAX,
        sender matches Some(s) ==> i64::MIN <= s.tg_uid <= i64::MAX,
        forward_error(v, sender, author, text) is None,
    ensures
        store_wf(with_forward(v, sender, author, text)),
        user_of(with_forward(v, sender, author, text), author.tg_uid) is Some,
        sender matches Some(s) ==> user_of(with_forward(v, sender, author, text), s.tg_uid)
            is Some,
        sender is Some && sender->0.tg_uid != author.tg_uid ==> with_forward(
            v,
            sender,
            author,
            text,
        ) == with_record(
            upserted(v, sender->0.tg_uid, sender->0.username),
            author.tg_uid,
            author.username,
            text,
        ),
        with_forward(v, sender, author, text).records.len() == v.records.len() + 1,
        with_forward(v, sender, author, text).records.drop_last() == v.records,
        with_forward(v, sender, author, text).records.last().message == text,
        with_forward(v, sender, author, text).records.last().user_id == user_of(
            with_forward(v, sender, author, text),
            author.tg_uid,
        )->0.id,
{
    let seen = seen_first(v, sender, author);
    let w = with_forward(v, sender, author, text);
    lemma_seen_first(v, sender, author);
    lemma_with_record(seen, author.tg_uid, author.username, text);
    lemma_upserted(seen, author.tg_uid, author.username);
    let u = upserted(seen, author.tg_uid, author.username);
    assert(w.users == u.users);
    assert(w.records.drop_last() =~= v.records);
    match sender {
        Some(s) => {
            if s.tg_uid != author.tg_uid {
                lemma_upserted(v, s.tg_uid, s.username);
                lemma_upserted_keeps_others(seen, author.tg_uid, author.username, s.tg_uid);
            }
        },
        None => {},
    }
}

/// Recording a text that the store takes adds one record, the last, with the next id and the
/// given text, owned by the author, who is a user of the store; no other record has that text.
/// An author whom the store did not know is added as one user, the last, with their Telegram
/// id, the given name and notices switched on; no other user changes.
pub proof fn lemma_record_made(v: StoreView, tg_uid: int, username: Seq<char>, text: Seq<char>)
    requires
        store_wf(v),
        i64::MIN <= tg_uid <= i64::MAX,
        add_record_error(v, tg_uid, text) is None,
    ensures
        store_wf(with_record(v, tg_uid, username, text)),
        user_of(with_record(v, tg_uid, username, text), tg_uid) is Some,
        with_record(v, tg_uid, username, text).records == v.records.push(
            RecordView {
                id: v.next_record_id,
                user_id: user_of(with_record(v, tg_uid, username, text), tg_uid)->0.id,
                message: text,
            },
        ),
        user_by_id(
            with_record(v, tg_uid, username, text),
            with_record(v, tg_uid, username, text).records.last().user_id,
        ) == user_of(with_record(v, tg_uid, username, text), tg_uid),
        forall|i: int|
            0 <= i < with_record(v, tg_uid, username, text).records.len() && (
            #[trigger] with_record(v, tg_uid, username, text).records[i]).message == text ==> i
                == v.records.len(),
        user_of(v, tg_uid) is None ==> with_record(v, tg_uid, username, text).users
            == v.users.push(
            UserView { id: v.next_user_id, tg_uid, username: kept_name(username), notify: true },
        ),
        user_of(v, tg_uid) is Some ==> with_record(v, tg_uid, username, text).users.len()
            == v.users.len(),
{
    let u = upserted(v, tg_uid, username);
    let w = with_record(v, tg_uid, username, text);
    lemma_with_record(v, tg_uid, username, text);
    lemma_upserted(v, tg_uid, username);
    lemma_position_bounds(u.users, by_tg_uid(tg_uid));
    lemma_position_bounds(v.users, by_tg_uid(tg_uid));
    lemma_position_bounds(v.records, by_message(text));
    let k = position(u.users, by_tg_uid(tg_uid));
    let owner = u.users[k];
    lemma_position_bounds(w.users, by_user_id(owner.id));
    let p = position(w.users, by_user_id(owner.id));
    assert(by_user_id(owner.id)(w.users[k]));
    assert(p == k);
    assert forall|i: int| 0 <= i < w.records.len() && (#[trigger] w.records[i]).message
        == text implies i == v.records.len() by {
        if i < v.records.len() {
            assert(!by_message(text)(v.records[i]));
        }
    }
}

/// A sender whom the store did not know has, after a forward of another user's message that
/// the store took, an account of their own: with the next id, their Telegram id, the name under
/// which they were seen and notices switched on. The account is not the author's and owns no
/// record.
pub proof fn lemma_new_sender_owns_nothing(
    v: StoreView,
    sender: SeenView,
    author: SeenView,
    text: Seq<char>,
)
    requires
        store_wf(v),
        i64::MIN <= author.tg_uid <= i64::MAX,
        i64::MIN <= sender.tg_uid <= i64::MAX,
        sender.tg_uid != author.tg_uid,
        user_of(v, sender.tg_uid) is None,
        forward_error(v, Some(sender), author, text) is None,
    ensures
        user_of(with_forward(v, Some(sender), author, text), sender.tg_uid) == Some(
            UserView {
                id: v.next_user_id,
                tg_uid: sender.tg_uid,
                username: kept_name(sender.username),
                notify: true,
            },
        ),
        user_of(with_forward(v, Some(sender), author, text), author.tg_uid) is Some,
        user_of(with_forward(v, Some(sender), author, text), author.tg_uid)->0.id
            != v.next_user_id,
        forall|i: int|
            0 <= i < with_forward(v, Some(sender), author, text).records.len() ==> (
            #[trigger] with_forward(v, Some(sender), author, text).records[i]).user_id
                != v.next_user_id,
{
    let seen = upserted(v, sender.tg_uid, sender.username);
    let w = with_forward(v, Some(sender), author, text);
    lemma_upserted(v, sender.tg_uid, sender.username);
    lemma_position_bounds(v.users, by_tg_uid(sender.tg_uid));
    lemma_position_bounds(seen.users, by_tg_uid(sender.tg_uid));
    lemma_record_made(seen, author.tg_uid, author.username, text);
    lemma_upserted(seen, author.tg_uid, author.username);
    lemma_upserted_keeps_others(seen, author.tg_uid, author.username, sender.tg_uid);
    let a = user_of(w, author.tg_uid)->0;
    let s = user_of(w, sender.tg_uid)->0;
    lemma_position_bounds(w.users, by_tg_uid(author.tg_uid));
    lemma_position_bounds(w.users, by_tg_uid(sender.tg_uid));
    assert(a.id != s.id);
    assert forall|i: int| 0 <= i < w.records.len() implies (#[trigger] w.records[i]).user_id
        != v.next_user_id by {
        if i < v.records.len() {
            let r = v.records[i];
            assert(w.records[i] == r);
            let p = position(v.users, by_user_id(r.user_id));
            lemma_position_bounds(v.users, by_user_id(r.user_id));
            assert(v.users[p].id < v.next_user_id);
        }
    }
}

} // verus!
