//! An entity store held in memory. It fixes what the three write operations
//! mean: a user and a conversation are inserted or refreshed by their remote
//! identity, a message is inserted once per conversation and remote message
//! identity and never touched again.

use vstd::prelude::*;
use crate::clock::{current_time, fresh_id, is_random_identity, Timestamp};
use crate::models::{
    group_row, message_row, refreshed_group, refreshed_user, user_row, NewTelegramGroup,
    NewTelegramMessage, NewTelegramUser, TelegramGroup, TelegramMessage, TelegramUser,
};

verus! {

/// The rows of the three entity kinds, in the order of their first insertion.
pub struct EntityStore {
    users: Vec<TelegramUser>,
    chats: Vec<TelegramGroup>,
    messages: Vec<TelegramMessage>,
}

/// Whether some user row has the remote identity.
pub open spec fn has_user(rows: Seq<TelegramUser>, remote_id: i64) -> bool {
    exists|i: int| 0 <= i < rows.len() && (#[trigger] rows[i]).telegram_user_id == remote_id
}

/// The place of a user row with the remote identity, where there is one.
pub open spec fn user_slot(rows: Seq<TelegramUser>, remote_id: i64) -> int {
    choose|i: int| 0 <= i < rows.len() && (#[trigger] rows[i]).telegram_user_id == remote_id
}

/// Whether no two user rows share a remote identity.
pub open spec fn users_distinct(rows: Seq<TelegramUser>) -> bool {
    forall|i: int, j: int|
        0 <= i < j < rows.len() ==> (#[trigger] rows[i]).telegram_user_id != (
        #[trigger] rows[j]).telegram_user_id
}

/// The user row with the remote identity, if any.
pub open spec fn user_found(rows: Seq<TelegramUser>, remote_id: i64) -> Option<TelegramUser> {
    if has_user(rows, remote_id) {
        Some(rows[user_slot(rows, remote_id)])
    } else {
        None
    }
}

/// The row that an upsert of `candidate` leaves and returns: the refreshed
/// row where the remote identity is known, else a new row under `id`.
pub open spec fn user_after_upsert(
    rows: Seq<TelegramUser>,
    id: u128,
    candidate: NewTelegramUser,
    now: Timestamp,
) -> TelegramUser {
    if has_user(rows, candidate.telegram_user_id) {
        refreshed_user(rows[user_slot(rows, candidate.telegram_user_id)], candidate, now)
    } else {
        user_row(id, candidate, now)
    }
}

/// The user rows after an upsert of `candidate`: the known row replaced in
/// its place, or the new row added at the end.
pub open spec fn users_after_upsert(
    rows: Seq<TelegramUser>,
    id: u128,
    candidate: NewTelegramUser,
    now: Timestamp,
) -> Seq<TelegramUser> {
    if has_user(rows, candidate.telegram_user_id) {
        rows.update(
            user_slot(rows, candidate.telegram_user_id),
            user_after_upsert(rows, id, candidate, now),
        )
    } else {
        rows.push(user_after_upsert(rows, id, candidate, now))
    }
}

/// Whether some conversation row has the remote identity.
pub open spec fn has_chat(rows: Seq<TelegramGroup>, remote_id: i64) -> bool {
    exists|i: int| 0 <= i < rows.len() && (#[trigger] rows[i]).telegram_chat_id == remote_id
}

/// The place of a conversation row with the remote identity, where there
/// is one.
pub open spec fn chat_slot(rows: Seq<TelegramGroup>, remote_id: i64) -> int {
    choose|i: int| 0 <= i < rows.len() && (#[trigger] rows[i]).telegram_chat_id == remote_id
}

/// Whether no two conversation rows share a remote identity.
pub open spec fn chats_distinct(rows: Seq<TelegramGroup>) -> bool {
    forall|i: int, j: int|
        0 <= i < j < rows.len() ==> (#[trigger] rows[i]).telegram_chat_id != (
        #[trigger] rows[j]).telegram_chat_id
}

/// The conversation row with the remote identity, if any.
pub open spec fn chat_found(rows: Seq<TelegramGroup>, remote_id: i64) -> Option<TelegramGroup> {
    if has_chat(rows, remote_id) {
        Some(rows[chat_slot(rows, remote_id)])
    } else {
        None
    }
}

/// The row that an upsert of `candidate` leaves and returns: the refreshed
/// row where the remote identity is known, else a new row under `id`.
pub open spec fn chat_after_upsert(
    rows: Seq<TelegramGroup>,
    id: u128,
    candidate: NewTelegramGroup,
    now: Timestamp,
) -> TelegramGroup {
    if has_chat(rows, candidate.telegram_chat_id) {
        refreshed_group(rows[chat_slot(rows, candidate.telegram_chat_id)], candidate, now)
    } else {
        group_row(id, candidate, now)
    }
}

/// The conversation rows after an upsert of `candidate`: the known row
/// replaced in its place, or the new row added at the end.
pub open spec fn chats_after_upsert(
    rows: Seq<TelegramGroup>,
    id: u128,
    candidate: NewTelegramGroup,
    now: Timestamp,
) -> Seq<TelegramGroup> {
    if has_chat(rows, candidate.telegram_chat_id) {
        rows.update(
            chat_slot(rows, candidate.telegram_chat_id),
            chat_after_upsert(rows, id, candidate, now),
        )
    } else {
        rows.push(chat_after_upsert(rows, id, candidate, now))
    }
}

/// Whether some message row belongs to the conversation and has the remote
/// message identity.
pub open spec fn has_message(rows: Seq<TelegramMessage>, group_id: u128, remote_id: i64) -> bool {
    exists|i: int|
        0 <= i < rows.len() && (#[trigger] rows[i]).group_id == group_id
            && rows[i].telegram_message_id == remote_id
}

/// The place of a message row of the conversation with the remote message
/// identity, where there is one.
pub open spec fn message_slot(rows: Seq<TelegramMessage>, group_id: u128, remote_id: i64) -> int {
    choose|i: int|
        0 <= i < rows.len() && (#[trigger] rows[i]).group_id == group_id
            && rows[i].telegram_message_id == remote_id
}

/// Whether no two message rows share conversation and remote message
/// identity.
pub open spec fn messages_distinct(rows: Seq<TelegramMessage>) -> bool {
    forall|i: int, j: int|
        0 <= i < j < rows.len() ==> !((#[trigger] rows[i]).group_id == (#[trigger] rows[j]).group_id
            && rows[i].telegram_message_id == rows[j].telegram_message_id)
}

/// The message row of the conversation with the remote message identity, if
/// any.
pub open spec fn message_found(
    rows: Seq<TelegramMessage>,
    group_id: u128,
    remote_id: i64,
) -> Option<TelegramMessage> {
    if has_message(rows, group_id, remote_id) {
        Some(rows[message_slot(rows, group_id, remote_id)])
    } else {
        None
    }
}

/// Whether an insert of `candidate` is suppressed as a duplicate.
pub open spec fn is_duplicate(rows: Seq<TelegramMessage>, candidate: NewTelegramMessage) -> bool {
    has_message(rows, candidate.group_id, candidate.telegram_message_id)
}

/// The message rows after an insert of `candidate`: unchanged where it is a
/// duplicate, else with the new row at the end.
pub open spec fn messages_after_insert(
    rows: Seq<TelegramMessage>,
    id: u128,
    candidate: NewTelegramMessage,
    now: Timestamp,
) -> Seq<TelegramMessage> {
    if is_duplicate(rows, candidate) {
        rows
    } else {
        rows.push(message_row(id, candidate, now))
    }
}

/// What an insert of `candidate` returns: nothing where it is a duplicate,
/// else the new row.
pub open spec fn message_after_insert(
    rows: Seq<TelegramMessage>,
    id: u128,
    candidate: NewTelegramMessage,
    now: Timestamp,
) -> Option<TelegramMessage> {
    if is_duplicate(rows, candidate) {
        None
    } else {
        Some(message_row(id, candidate, now))
    }
}

impl EntityStore {
    /// The user rows.
    pub closed spec fn users(&self) -> Seq<TelegramUser> {
        self.users@
    }

    /// The conversation rows.
    pub closed spec fn chats(&self) -> Seq<TelegramGroup> {
        self.chats@
    }

    /// The message rows.
    pub closed spec fn messages(&self) -> Seq<TelegramMessage> {
        self.messages@
    }

    /// The store's invariant: each natural key occurs once.
    pub open spec fn wf(&self) -> bool {
        &&& users_distinct(self.users())
        &&& chats_distinct(self.chats())
        &&& messages_distinct(self.messages())
    }

    /// An empty store.
    pub fn new() -> (r: EntityStore)
        ensures
            r.wf(),
            r.users().len() == 0,
            r.chats().len() == 0,
            r.messages().len() == 0,
    {
        EntityStore { users: Vec::new(), chats: Vec::new(), messages: Vec::new() }
    }

    /// The number of user rows.
    pub fn user_count(&self) -> (r: usize)
        ensures
            r == self.users().len(),
    {
        self.users.len()
    }

    /// The number of conversation rows.
    pub fn chat_count(&self) -> (r: usize)
        ensures
            r == self.chats().len(),
    {
        self.chats.len()
    }

    /// The number of message rows.
    pub fn message_count(&self) -> (r: usize)
        ensures
            r == self.messages().len(),
    {
        self.messages.len()
    }

    /// The place of the user row with the remote identity, if any.
    fn user_position(&self, remote_id: i64) -> (r: Option<usize>)
        requires
            self.wf(),
        ensures
            r is Some <==> has_user(self.users(), remote_id),
            r is Some ==> r.unwrap() == user_slot(self.users(), remote_id) && r.unwrap()
                < self.users().len(),
    {
        let mut i: usize = 0;
        while i < self.users.len()
            invariant
                self.wf(),
                i <= self.users.len(),
                forall|k: int| 0 <= k < i ==> self.users@[k].telegram_user_id != remote_id,
            decreases self.users.len() - i,
        {
            if self.users[i].telegram_user_id == remote_id {
                proof {
                    let rows = self.users();
                    assert(rows[i as int].telegram_user_id == remote_id);
                    let slot = user_slot(self.users(), remote_id);
                    assert(0 <= slot < rows.len() && rows[slot].telegram_user_id == remote_id);
                    assert(slot == i);
                }
                return Some(i);
            }
            i += 1;
        }
        None
    }

    /// The place of the conversation row with the remote identity, if any.
    fn chat_position(&self, remote_id: i64) -> (r: Option<usize>)
        requires
            self.wf(),
        ensures
            r is Some <==> has_chat(self.chats(), remote_id),
            r is Some ==> r.unwrap() == chat_slot(self.chats(), remote_id) && r.unwrap()
                < self.chats().len(),
    {
        let mut i: usize = 0;
        while i < self.chats.len()
            invariant
                self.wf(),
                i <= self.chats.len(),
                forall|k: int| 0 <= k < i ==> self.chats@[k].telegram_chat_id != remote_id,
            decreases self.chats.len() - i,
        {
            if self.chats[i].telegram_chat_id == remote_id {
                proof {
                    let rows = self.chats();
                    assert(rows[i as int].telegram_chat_id == remote_id);
                    let slot = chat_slot(self.chats(), remote_id);
                    assert(0 <= slot < rows.len() && rows[slot].telegram_chat_id == remote_id);
                    assert(slot == i);
                }
                return Some(i);
            }
            i += 1;
        }
        None
    }

    /// The place of the message row with the key, if any.
    fn message_position(&self, group_id: u128, remote_id: i64) -> (r: Option<usize>)
        requires
            self.wf(),
        ensures
            r is Some <==> has_message(self.messages(), group_id, remote_id),
            r is Some ==> r.unwrap() == message_slot(self.messages(), group_id, remote_id)
                && r.unwrap() < self.messages().len(),
    {
        let mut i: usize = 0;
        while i < self.messages.len()
            invariant
                self.wf(),
                i <= self.messages.len(),
                forall|k: int|
                    0 <= k < i ==> !(self.messages@[k].group_id == group_id
                        && self.messages@[k].telegram_message_id == remote_id),
            decreases self.messages.len() - i,
        {
            if self.messages[i].group_id == group_id && self.messages[i].telegram_message_id
                == remote_id {
                proof {
                    let rows = self.messages();
                    assert(rows[i as int].group_id == group_id);
                    let slot = message_slot(rows, group_id, remote_id);
                    assert(0 <= slot < rows.len() && rows[slot].group_id == group_id
                        && rows[slot].telegram_message_id == remote_id);
                    assert(slot == i);
                }
                return Some(i);
            }
            i += 1;
        }
        None
    }

    /// Looks a user up by remote identity. The store is not changed.
    pub fn find_user_by_remote_id(&self, remote_id: i64) -> (r: Option<TelegramUser>)
        requires
            self.wf(),
        ensures
            r == user_found(self.users(), remote_id),
    {
        match self.user_position(remote_id) {
            Some(i) => Some(self.users[i].clone()),
            None => None,
        }
    }

    /// Looks a conversation up by remote identity. The store is not changed.
    pub fn find_chat_by_remote_id(&self, remote_id: i64) -> (r: Option<TelegramGroup>)
        requires
            self.wf(),
        ensures
            r == chat_found(self.chats(), remote_id),
    {
        match self.chat_position(remote_id) {
            Some(i) => Some(self.chats[i].clone()),
            None => None,
        }
    }

    /// Reads a message back by the conversation's row and the remote message
    /// identity. The store is not changed.
    pub fn find_message(&self, group_id: u128, remote_id: i64) -> (r: Option<TelegramMessage>)
        requires
            self.wf(),
        ensures
            r == message_found(self.messages(), group_id, remote_id),
    {
        match self.message_position(group_id, remote_id) {
            Some(i) => Some(self.messages[i].clone()),
            None => None,
        }
    }

    /// Inserts the user, or refreshes the row that has its remote identity:
    /// then the surrogate identity and the creation time stay, the other
    /// fields are the candidate's and the update time is `now`. `id` is the
    /// surrogate identity for a new row. Returns the resulting row.
    pub fn upsert_user(&mut self, candidate: NewTelegramUser, id: u128, now: Timestamp) -> (r:
        TelegramUser)
        requires
            old(self).wf(),
        ensures
            final(self).wf(),
            final(self).users() == users_after_upsert(old(self).users(), id, candidate, now),
            r == user_after_upsert(old(self).users(), id, candidate, now),
            final(self).chats() == old(self).chats(),
            final(self).messages() == old(self).messages(),
    {
        match self.user_position(candidate.telegram_user_id) {
            Some(i) => {
                let surrogate = self.users[i].id;
                let created_at = self.users[i].created_at;
                let mut row = TelegramUser::first_seen(surrogate, candidate, now);
                row.created_at = created_at;
                let result = row.clone();
                self.users.set(i, row);
                result
            },
            None => {
                let row = TelegramUser::first_seen(id, candidate, now);
                let result = row.clone();
                self.users.push(row);
                result
            },
        }
    }

    /// Inserts the conversation, or refreshes the row that has its remote
    /// identity, as [`EntityStore::upsert_user`] does for a user.
    pub fn upsert_chat(&mut self, candidate: NewTelegramGroup, id: u128, now: Timestamp) -> (r:
        TelegramGroup)
        requires
            old(self).wf(),
        ensures
            final(self).wf(),
            final(self).chats() == chats_after_upsert(old(self).chats(), id, candidate, now),
            r == chat_after_upsert(old(self).chats(), id, candidate, now),
            final(self).users() == old(self).users(),
            final(self).messages() == old(self).messages(),
    {
        match self.chat_position(candidate.telegram_chat_id) {
            Some(i) => {
                let surrogate = self.chats[i].id;
                let created_at = self.chats[i].created_at;
                let mut row = TelegramGroup::first_seen(surrogate, candidate, now);
                row.created_at = created_at;
                let result = row.clone();
                self.chats.set(i, row);
                result
            },
            None => {
                let row = TelegramGroup::first_seen(id, candidate, now);
                let result = row.clone();
                self.chats.push(row);
                result
            },
        }
    }

    /// Inserts the message unless a row of the same conversation has its
    /// remote message identity. A duplicate changes nothing and returns
    /// `None`; otherwise the new row, under the surrogate identity `id`, is
    /// returned.
    pub fn insert_message(&mut self, candidate: NewTelegramMessage, id: u128, now: Timestamp) -> (r:
        Option<TelegramMessage>)
        requires
            old(self).wf(),
        ensures
            final(self).wf(),
            final(self).messages() == messages_after_insert(
                old(self).messages(),
                id,
                candidate,
                now,
            ),
            r == message_after_insert(old(self).messages(), id, candidate, now),
            final(self).users() == old(self).users(),
            final(self).chats() == old(self).chats(),
    {
        match self.message_position(candidate.group_id, candidate.telegram_message_id) {
            Some(_) => None,
            None => {
                let row = TelegramMessage::first_seen(id, candidate, now);
                let result = row.clone();
                self.messages.push(row);
                Some(result)
            },
        }
    }
}

impl TelegramUser {
    /// Upserts the user into the store at the current time, with a freshly
    /// generated surrogate identity for a new row, and returns the resulting
    /// row.
    pub fn create(store: &mut EntityStore, new_user: NewTelegramUser) -> (r: TelegramUser)
        requires
            old(store).wf(),
        ensures
            final(store).wf(),
            exists|id: u128, now: Timestamp|
                is_random_identity(id) && final(store).users() == users_after_upsert(
                    old(store).users(),
                    id,
                    new_user,
                    now,
                ) && r == user_after_upsert(old(store).users(), id, new_user, now),
            final(store).chats() == old(store).chats(),
            final(store).messages() == old(store).messages(),
    {
        let id = fresh_id();
        let now = current_time();
        store.upsert_user(new_user, id, now)
    }

    /// Looks a user up by remote identity.
    pub fn find_by_telegram_id(store: &EntityStore, telegram_user_id: i64) -> (r: Option<
        TelegramUser,
    >)
        requires
            store.wf(),
        ensures
            r == user_found(store.users(), telegram_user_id),
    {
        store.find_user_by_remote_id(telegram_user_id)
    }
}

impl TelegramGroup {
    /// Upserts the conversation into the store at the current time, with a
    /// freshly generated surrogate identity for a new row, and returns the
    /// resulting row.
    pub fn create(store: &mut EntityStore, new_group: NewTelegramGroup) -> (r: TelegramGroup)
        requires
            old(store).wf(),
        ensures
            final(store).wf(),
            exists|id: u128, now: Timestamp|
                is_random_identity(id) && final(store).chats() == chats_after_upsert(
                    old(store).chats(),
                    id,
                    new_group,
                    now,
                ) && r == chat_after_upsert(old(store).chats(), id, new_group, now),
            final(store).users() == old(store).users(),
            final(store).messages() == old(store).messages(),
    {
        let id = fresh_id();
        let now = current_time();
        store.upsert_chat(new_group, id, now)
    }

    /// Looks a conversation up by remote identity.
    pub fn find_by_telegram_id(store: &EntityStore, telegram_chat_id: i64) -> (r: Option<
        TelegramGroup,
    >)
        requires
            store.wf(),
        ensures
            r == chat_found(store.chats(), telegram_chat_id),
    {
        store.find_chat_by_remote_id(telegram_chat_id)
    }
}

impl TelegramMessage {
    /// Inserts the message into the store at the current time, under a
    /// freshly generated surrogate identity, unless it is a duplicate: then
    /// nothing changes and `None` is returned.
    pub fn create(store: &mut EntityStore, new_message: NewTelegramMessage) -> (r: Option<
        TelegramMessage,
    >)
        requires
            old(store).wf(),
        ensures
            final(store).wf(),
            r is None <==> is_duplicate(old(store).messages(), new_message),
            exists|id: u128, now: Timestamp|
                is_random_identity(id) && final(store).messages() == messages_after_insert(
                    old(store).messages(),
                    id,
                    new_message,
                    now,
                ) && r == message_after_insert(old(store).messages(), id, new_message, now),
            final(store).users() == old(store).users(),
            final(store).chats() == old(store).chats(),
    {
        let id = fresh_id();
        let now = current_time();
        store.insert_message(new_message, id, now)
    }
}

/// A user row that has the remote identity is the one row that has it.
pub proof fn lemma_user_slot(rows: Seq<TelegramUser>, i: int)
    requires
        users_distinct(rows),
        0 <= i < rows.len(),
    ensures
        has_user(rows, rows[i].telegram_user_id),
        user_slot(rows, rows[i].telegram_user_id) == i,
{
    let slot = user_slot(rows, rows[i].telegram_user_id);
    assert(0 <= slot < rows.len() && rows[slot].telegram_user_id == rows[i].telegram_user_id);
}

/// A message row that has the key is the one row that has it.
pub proof fn lemma_message_slot(rows: Seq<TelegramMessage>, i: int)
    requires
        messages_distinct(rows),
        0 <= i < rows.len(),
    ensures
        has_message(rows, rows[i].group_id, rows[i].telegram_message_id),
        message_slot(rows, rows[i].group_id, rows[i].telegram_message_id) == i,
{
    let slot = message_slot(rows, rows[i].group_id, rows[i].telegram_message_id);
    assert(0 <= slot < rows.len() && rows[slot].group_id == rows[i].group_id
        && rows[slot].telegram_message_id == rows[i].telegram_message_id);
}

/// An upsert keeps the remote identities of users distinct, and leaves the
/// upserted row to be found under its remote identity.
pub proof fn lemma_upsert_user_found(
    rows: Seq<TelegramUser>,
    id: u128,
    candidate: NewTelegramUser,
    now: Timestamp,
)
    requires
        users_distinct(rows),
    ensures
        users_distinct(users_after_upsert(rows, id, candidate, now)),
        user_found(users_after_upsert(rows, id, candidate, now), candidate.telegram_user_id)
            == Some(user_after_upsert(rows, id, candidate, now)),
        users_after_upsert(rows, id, candidate, now).len() == if has_user(
            rows,
            candidate.telegram_user_id,
        ) {
            rows.len()
        } else {
            rows.len() + 1
        },
{
    let after = users_after_upsert(rows, id, candidate, now);
    let row = user_after_upsert(rows, id, candidate, now);
    if has_user(rows, candidate.telegram_user_id) {
        let slot = user_slot(rows, candidate.telegram_user_id);
        assert(0 <= slot < rows.len() && rows[slot].telegram_user_id
            == candidate.telegram_user_id);
        assert forall|i: int, j: int| 0 <= i < j < after.len() implies (#[trigger] after[i]).telegram_user_id
            != (#[trigger] after[j]).telegram_user_id by {
            assert(after[i].telegram_user_id == rows[i].telegram_user_id);
            assert(after[j].telegram_user_id == rows[j].telegram_user_id);
        }
        assert(after[slot] == row);
        lemma_user_slot(after, slot);
    } else {
        let last = rows.len() as int;
        assert forall|i: int, j: int| 0 <= i < j < after.len() implies (#[trigger] after[i]).telegram_user_id
            != (#[trigger] after[j]).telegram_user_id by {
            if j == last {
                assert(after[i] == rows[i]);
            } else {
                assert(after[i] == rows[i]);
                assert(after[j] == rows[j]);
            }
        }
        assert(after[last] == row);
        lemma_user_slot(after, last);
    }
}

/// Upserting a user twice under one remote identity leaves one row for it:
/// the second write adds no row, the row keeps the surrogate identity and
/// the creation time of the first write, every other field is the second
/// candidate's, the update time is that of the second write, and it has
/// advanced where the second write is the later one.
pub proof fn lemma_upsert_user_twice(
    rows: Seq<TelegramUser>,
    first_id: u128,
    first: NewTelegramUser,
    first_now: Timestamp,
    second_id: u128,
    second: NewTelegramUser,
    second_now: Timestamp,
)
    requires
        users_distinct(rows),
        first.telegram_user_id == second.telegram_user_id,
    ensures
        ({
            let once = users_after_upsert(rows, first_id, first, first_now);
            let first_row = user_after_upsert(rows, first_id, first, first_now);
            let twice = users_after_upsert(once, second_id, second, second_now);
            let second_row = user_after_upsert(once, second_id, second, second_now);
            &&& twice.len() == once.len()
            &&& users_distinct(twice)
            &&& user_found(twice, second.telegram_user_id) == Some(second_row)
            &&& second_row == refreshed_user(first_row, second, second_now)
            &&& second_row.id == first_row.id
            &&& second_row.created_at == first_row.created_at
            &&& second_row.first_name == second.first_name
            &&& second_row.last_name == second.last_name
            &&& second_row.updated_at == second_now
            &&& first_now.is_before(second_now) ==> first_row.updated_at.is_before(
                second_row.updated_at,
            )
        }),
{
    let once = users_after_upsert(rows, first_id, first, first_now);
    lemma_upsert_user_found(rows, first_id, first, first_now);
    lemma_upsert_user_found(once, second_id, second, second_now);
}

/// An upsert touches the row of its own remote identity only: a user with
/// another remote identity is found as before.
pub proof fn lemma_upsert_user_keeps_others(
    rows: Seq<TelegramUser>,
    id: u128,
    candidate: NewTelegramUser,
    now: Timestamp,
    other: i64,
)
    requires
        users_distinct(rows),
        other != candidate.telegram_user_id,
    ensures
        user_found(users_after_upsert(rows, id, candidate, now), other) == user_found(rows, other),
{
    let after = users_after_upsert(rows, id, candidate, now);
    lemma_upsert_user_found(rows, id, candidate, now);
    if has_user(rows, other) {
        let slot = user_slot(rows, other);
        assert(0 <= slot < rows.len() && rows[slot].telegram_user_id == other);
        assert(after[slot] == rows[slot]);
        lemma_user_slot(after, slot);
    } else {
        if has_user(after, other) {
            let slot = user_slot(after, other);
            assert(0 <= slot < after.len() && after[slot].telegram_user_id == other);
            if slot < rows.len() {
                assert(rows[slot].telegram_user_id == other);
            }
        }
    }
}

/// A conversation row that has the remote identity is the one row that has it.
pub proof fn lemma_chat_slot(rows: Seq<TelegramGroup>, i: int)
    requires
        chats_distinct(rows),
        0 <= i < rows.len(),
    ensures
        has_chat(rows, rows[i].telegram_chat_id),
        chat_slot(rows, rows[i].telegram_chat_id) == i,
{
    let slot = chat_slot(rows, rows[i].telegram_chat_id);
    assert(0 <= slot < rows.len() && rows[slot].telegram_chat_id == rows[i].telegram_chat_id);
}

/// An upsert keeps the remote identities of conversations distinct, and
/// leaves the upserted row to be found under its remote identity.
pub proof fn lemma_upsert_chat_found(
    rows: Seq<TelegramGroup>,
    id: u128,
    candidate: NewTelegramGroup,
    now: Timestamp,
)
    requires
        chats_distinct(rows),
    ensures
        chats_distinct(chats_after_upsert(rows, id, candidate, now)),
        chat_found(chats_after_upsert(rows, id, candidate, now), candidate.telegram_chat_id)
            == Some(chat_after_upsert(rows, id, candidate, now)),
        chats_after_upsert(rows, id, candidate, now).len() == if has_chat(
            rows,
            candidate.telegram_chat_id,
        ) {
            rows.len()
        } else {
            rows.len() + 1
        },
{
    let after = chats_after_upsert(rows, id, candidate, now);
    let row = chat_after_upsert(rows, id, candidate, now);
    if has_chat(rows, candidate.telegram_chat_id) {
        let slot = chat_slot(rows, candidate.telegram_chat_id);
        assert(0 <= slot < rows.len() && rows[slot].telegram_chat_id
            == candidate.telegram_chat_id);
        assert forall|i: int, j: int| 0 <= i < j < after.len() implies (#[trigger] after[i]).telegram_chat_id
            != (#[trigger] after[j]).telegram_chat_id by {
            assert(after[i].telegram_chat_id == rows[i].telegram_chat_id);
            assert(after[j].telegram_chat_id == rows[j].telegram_chat_id);
        }
        assert(after[slot] == row);
        lemma_chat_slot(after, slot);
    } else {
        let last = rows.len() as int;
        assert forall|i: int, j: int| 0 <= i < j < after.len() implies (#[trigger] after[i]).telegram_chat_id
            != (#[trigger] after[j]).telegram_chat_id by {
            assert(after[i] == rows[i]);
            if j < last {
                assert(after[j] == rows[j]);
            }
        }
        assert(after[last] == row);
        lemma_chat_slot(after, last);
    }
}

/// Upserting a conversation twice under one remote identity leaves one row
/// for it, with the surrogate identity and the creation time of the first
/// write, the fields of the second candidate and the update time of the
/// second write.
pub proof fn lemma_upsert_chat_twice(
    rows: Seq<TelegramGroup>,
    first_id: u128,
    first: NewTelegramGroup,
    first_now: Timestamp,
    second_id: u128,
    second: NewTelegramGroup,
    second_now: Timestamp,
)
    requires
        chats_distinct(rows),
        first.telegram_chat_id == second.telegram_chat_id,
    ensures
        ({
            let once = chats_after_upsert(rows, first_id, first, first_now);
            let first_row = chat_after_upsert(rows, first_id, first, first_now);
            let twice = chats_after_upsert(once, second_id, second, second_now);
            let second_row = chat_after_upsert(once, second_id, second, second_now);
            &&& twice.len() == once.len()
            &&& chats_distinct(twice)
            &&& chat_found(twice, second.telegram_chat_id) == Some(second_row)
            &&& second_row == refreshed_group(first_row, second, second_now)
            &&& second_row.id == first_row.id
            &&& second_row.created_at == first_row.created_at
            &&& second_row.title == second.title
            &&& second_row.updated_at == second_now
        }),
{
    let once = chats_after_upsert(rows, first_id, first, first_now);
    lemma_upsert_chat_found(rows, first_id, first, first_now);
    lemma_upsert_chat_found(once, second_id, second, second_now);
}

/// A message whose conversation and remote message identity are present
/// already is suppressed: the insert returns nothing and leaves every row
/// as it was. In particular the second of two inserts under one key is.
pub proof fn lemma_insert_message_twice(
    rows: Seq<TelegramMessage>,
    first_id: u128,
    first: NewTelegramMessage,
    first_now: Timestamp,
    second_id: u128,
    second: NewTelegramMessage,
    second_now: Timestamp,
)
    requires
        messages_distinct(rows),
        first.group_id == second.group_id,
        first.telegram_message_id == second.telegram_message_id,
    ensures
        ({
            let once = messages_after_insert(rows, first_id, first, first_now);
            &&& messages_distinct(once)
            &&& is_duplicate(once, second)
            &&& messages_after_insert(once, second_id, second, second_now) == once
            &&& message_after_insert(once, second_id, second, second_now) is None
        }),
{
    lemma_insert_message_found(rows, first_id, first, first_now);
}

/// An insert keeps the keys of messages distinct, and afterwards a row is
/// found under the candidate's key: the new row, or the one that was there.
pub proof fn lemma_insert_message_found(
    rows: Seq<TelegramMessage>,
    id: u128,
    candidate: NewTelegramMessage,
    now: Timestamp,
)
    requires
        messages_distinct(rows),
    ensures
        messages_distinct(messages_after_insert(rows, id, candidate, now)),
        has_message(
            messages_after_insert(rows, id, candidate, now),
            candidate.group_id,
            candidate.telegram_message_id,
        ),
        !is_duplicate(rows, candidate) ==> message_found(
            messages_after_insert(rows, id, candidate, now),
            candidate.group_id,
            candidate.telegram_message_id,
        ) == Some(message_row(id, candidate, now)),
        is_duplicate(rows, candidate) ==> message_found(
            messages_after_insert(rows, id, candidate, now),
            candidate.group_id,
            candidate.telegram_message_id,
        ) == message_found(rows, candidate.group_id, candidate.telegram_message_id),
{
    let after = messages_after_insert(rows, id, candidate, now);
    if !is_duplicate(rows, candidate) {
        let last = rows.len() as int;
        assert forall|i: int, j: int| 0 <= i < j < after.len() implies !((
        #[trigger] after[i]).group_id == (#[trigger] after[j]).group_id
            && after[i].telegram_message_id == after[j].telegram_message_id) by {
            assert(after[i] == rows[i]);
            if j < last {
                assert(after[j] == rows[j]);
            }
        }
        assert(after[last] == message_row(id, candidate, now));
        lemma_message_slot(after, last);
    }
}

/// A message that was inserted reads back with the optional fields that it
/// was inserted with: each media descriptor field, each coordinate and each
/// contact field is present exactly where the candidate had it, with the
/// candidate's value.
pub proof fn lemma_message_round_trip(
    rows: Seq<TelegramMessage>,
    id: u128,
    candidate: NewTelegramMessage,
    now: Timestamp,
)
    requires
        messages_distinct(rows),
        !is_duplicate(rows, candidate),
    ensures
        ({
            let read = message_found(
                messages_after_insert(rows, id, candidate, now),
                candidate.group_id,
                candidate.telegram_message_id,
            );
            &&& read is Some
            &&& read.unwrap().message_text == candidate.message_text
            &&& read.unwrap().media_file_id == candidate.media_file_id
            &&& read.unwrap().media_file_unique_id == candidate.media_file_unique_id
            &&& read.unwrap().media_file_size == candidate.media_file_size
            &&& read.unwrap().media_mime_type == candidate.media_mime_type
            &&& read.unwrap().media_file_name == candidate.media_file_name
            &&& read.unwrap().location_latitude == candidate.location_latitude
            &&& read.unwrap().location_longitude == candidate.location_longitude
            &&& read.unwrap().contact_phone_number == candidate.contact_phone_number
            &&& read.unwrap().contact_first_name == candidate.contact_first_name
            &&& read.unwrap().contact_last_name == candidate.contact_last_name
            &&& read.unwrap().user_id == candidate.user_id
            &&& read.unwrap().edit_date == candidate.edit_date
        }),
{
    lemma_insert_message_found(rows, id, candidate, now);
}

} // verus!
