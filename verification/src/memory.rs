//! A participant table in memory that behaves as the model of the table
//! says: for tests, and for callers that have no database.

use vstd::prelude::*;
use crate::common::{Phase, ServiceError};
use crate::entities::room_user::{id_key, ids_of, members, Member, Model, NewModel};
use crate::ledger::{
    delete_rows, fresh_rows, in_room, keys_distinct, law_convergence, lemma_filter_keeps_distinct,
    lemma_filter_member, lemma_keep_all, member_set, pruned, reconciled, rows_of_room, spared,
};
use crate::services::room_user::{
    drafts, missing_users, stale_ids, RoomUserService, SyncAction, SyncEvent, SyncState,
};
use crate::text::names;

verus! {

/// The table has no key left for the rows of a batch.
#[derive(Clone, Copy, Debug, PartialEq, Eq, Structural)]
pub struct KeysExhausted;

/// The rows that a batch creates where the first gets the key `first` and
/// each next the key after: the k-th is for the pair `batch[k]` of room
/// and user.
pub open spec fn minted(first: int, batch: Seq<(i32, Seq<char>)>) -> Seq<Member> {
    Seq::new(
        batch.len(),
        |k: int| Member { id: (first + k) as i32, user: batch[k].1, room: batch[k].0 },
    )
}

/// The keys `first`, `first + 1` and so on, `n` of them.
pub open spec fn keys_from(first: int, n: nat) -> Seq<i32> {
    Seq::new(n, |k: int| (first + k) as i32)
}

/// Whether `ids` holds `id`.
fn has_id(ids: &Vec<i32>, id: i32) -> (found: bool)
    ensures
        found == ids@.contains(id),
{
    let mut i: usize = 0;
    while i < ids.len()
        invariant
            i <= ids.len(),
            forall|k: int| 0 <= k < i ==> ids@[k] != id,
        decreases ids.len() - i,
    {
        if ids[i] == id {
            return true;
        }
        i += 1;
    }
    false
}

/// Participant rows over all rooms, with the key that the next new row
/// gets. Keys are given in rising order and never again.
pub struct MemoryTable {
    rows: Vec<Model>,
    next_id: i32,
}

impl View for MemoryTable {
    type V = Seq<Member>;

    closed spec fn view(&self) -> Seq<Member> {
        members(self.rows@)
    }
}

impl MemoryTable {
    /// The key that the next new row gets.
    pub closed spec fn next_key(&self) -> int {
        self.next_id as int
    }

    /// The table is in order: every key in it is below the next key, and no
    /// two rows share one.
    pub closed spec fn wf(&self) -> bool {
        &&& keys_distinct(self@)
        &&& forall|i: int| 0 <= i < self.rows@.len() ==> (#[trigger] self.rows@[i]).id < self.next_id
    }

    /// In a table that is in order no two rows share a key, so that the
    /// laws of the table hold of it.
    pub proof fn lemma_wf_keys(&self)
        requires
            self.wf(),
        ensures
            keys_distinct(self@),
    {
    }

    /// An empty table whose first row gets the key `first`.
    pub fn starting_at(first: i32) -> (table: MemoryTable)
        ensures
            table.wf(),
            table@ == Seq::<Member>::empty(),
            table.next_key() == first,
    {
        let table = MemoryTable { rows: Vec::new(), next_id: first };
        assert(table@ =~= Seq::<Member>::empty());
        assert(ids_of(table@) =~= Seq::<i32>::empty());
        table
    }

    /// An empty table whose first row gets the key 1.
    pub fn new() -> (table: MemoryTable)
        ensures
            table.wf(),
            table@ == Seq::<Member>::empty(),
            table.next_key() == 1,
    {
        Self::starting_at(1)
    }

    /// All rows, in table order.
    pub fn rows(&self) -> (out: &Vec<Model>)
        ensures
            members(out@) == self@,
    {
        &self.rows
    }

    /// The rows of `room`, in table order.
    pub fn rows_of(&self, room: i32) -> (out: Vec<Model>)
        ensures
            members(out@) == rows_of_room(self@, room),
    {
        let ghost all = self@;
        let mut out: Vec<Model> = Vec::new();
        let mut i: usize = 0;
        while i < self.rows.len()
            invariant
                i <= self.rows.len(),
                all == members(self.rows@),
                members(out@) == rows_of_room(all.take(i as int), room),
            decreases self.rows.len() - i,
        {
            proof {
                assert(all.take(i + 1) == all.take(i as int).push(all[i as int]));
                all.take(i as int).lemma_filter_push(all[i as int], in_room(room));
            }
            if self.rows[i].room_id == room {
                let ghost before = out@;
                out.push(self.rows[i].duplicate());
                assert(members(out@) == members(before).push(all[i as int]));
            }
            i += 1;
        }
        assert(all.take(self.rows.len() as int) == all);
        out
    }

    /// Deletes the rows with a key among `ids`, in one batch.
    pub fn delete_many(&mut self, ids: &Vec<i32>)
        requires
            old(self).wf(),
        ensures
            final(self).wf(),
            final(self)@ == delete_rows(old(self)@, ids@),
            final(self).next_key() == old(self).next_key(),
    {
        let ghost all = self@;
        let mut kept: Vec<Model> = Vec::new();
        let mut i: usize = 0;
        while i < self.rows.len()
            invariant
                i <= self.rows.len(),
                all == members(self.rows@),
                members(kept@) == delete_rows(all.take(i as int), ids@),
            decreases self.rows.len() - i,
        {
            let gone = has_id(ids, self.rows[i].id);
            proof {
                assert(all.take(i + 1) == all.take(i as int).push(all[i as int]));
                all.take(i as int).lemma_filter_push(all[i as int], spared(ids@));
            }
            if !gone {
                let ghost before = kept@;
                kept.push(self.rows[i].duplicate());
                assert(members(kept@) == members(before).push(all[i as int]));
            }
            i += 1;
        }
        proof {
            assert(all.take(self.rows.len() as int) == all);
            lemma_filter_keeps_distinct(all, id_key(), spared(ids@));
            assert forall|k: int| 0 <= k < kept@.len() implies (#[trigger] kept@[k]).id
                < self.next_id by {
                let row = members(kept@)[k];
                assert(members(kept@).contains(row));
                lemma_filter_member(all, spared(ids@), row);
                let j = choose|j: int| 0 <= j < all.len() && all[j] == row;
                assert(self.rows@[j].id == row.id);
            }
        }
        self.rows = kept;
    }

    /// Inserts the rows of `batch`, in one batch: all of them, under the
    /// next keys in order, or none where the keys do not suffice.
    pub fn insert_many(&mut self, batch: &Vec<NewModel>) -> (r: Result<(), KeysExhausted>)
        requires
            old(self).wf(),
        ensures
            final(self).wf(),
            match r {
                Ok(_) => {
                    &&& old(self).next_key() + batch@.len() <= i32::MAX
                    &&& final(self)@ == old(self)@ + minted(old(self).next_key(), drafts(batch@))
                    &&& final(self).next_key() == old(self).next_key() + batch@.len()
                },
                Err(_) => {
                    &&& old(self).next_key() + batch@.len() > i32::MAX
                    &&& final(self)@ == old(self)@
                    &&& final(self).next_key() == old(self).next_key()
                },
            },
    {
        let room_left: i64 = i32::MAX as i64 - self.next_id as i64;
        if batch.len() > 0 && (batch.len() as u64 > u32::MAX as u64 || batch.len() as i64 > room_left) {
            return Err(KeysExhausted);
        }
        let ghost before = self@;
        let ghost first = self.next_id as int;
        let ghost asked = drafts(batch@);
        let ghost old_rows = self.rows@;
        let mut i: usize = 0;
        while i < batch.len()
            invariant
                i <= batch.len(),
                first + batch.len() <= i32::MAX,
                asked == drafts(batch@),
                self.next_id == first + i,
                self.rows@.len() == old_rows.len() + i,
                members(self.rows@) == before + minted(first, asked.take(i as int)),
                before == members(old_rows),
                forall|k: int| 0 <= k < old_rows.len() ==> (#[trigger] self.rows@[k]).id < first,
                forall|k: int|
                    old_rows.len() <= k < self.rows@.len() ==> (#[trigger] self.rows@[k]).id
                        == first + (k - old_rows.len()),
            decreases batch.len() - i,
        {
            let ghost held = self.rows@;
            self.rows.push(
                Model { id: self.next_id, user_id: batch[i].user_id.clone(), room_id: batch[i].room_id },
            );
            self.next_id = self.next_id + 1;
            proof {
                assert(asked[i as int] == (batch@[i as int].room_id, batch@[i as int].user_id@));
                assert(minted(first, asked.take(i + 1)) == minted(first, asked.take(i as int)).push(
                    Member { id: (first + i) as i32, user: asked[i as int].1, room: asked[i as int].0 },
                ));
                assert(members(self.rows@) == members(held).push(members(self.rows@)[held.len() as int]));
                assert(members(self.rows@) == before + minted(first, asked.take(i + 1)));
            }
            i += 1;
        }
        proof {
            assert(asked.take(batch.len() as int) == asked);
            let now = members(self.rows@);
            assert forall|a: int, b: int|
                0 <= a < now.len() && 0 <= b < now.len() && a != b implies ids_of(now)[a] != ids_of(
                now,
            )[b] by {
                assert(self.rows@[a].id == ids_of(now)[a]);
                assert(self.rows@[b].id == ids_of(now)[b]);
                if a < old_rows.len() && b < old_rows.len() {
                    assert(now[a] == before[a]);
                    assert(now[b] == before[b]);
                    assert(ids_of(before)[a] != ids_of(before)[b]);
                }
            }
        }
        Ok(())
    }

    /// Brings the participants of `room_id` in line with `user_ids`: runs a
    /// reconciliation to its end, performing on this table what it asks
    /// for.
    ///
    /// On success the table is the reconciled one, the new rows under the
    /// next keys in order, and the users of the room are exactly the wanted
    /// ones. It fails exactly where the keys do not suffice for the new
    /// rows: then the stale rows are gone and nothing was inserted, which
    /// is a partial convergence where there were stale rows, and a failure
    /// of the insert where there were none.
    pub fn sync(&mut self, room_id: i32, user_ids: &Vec<String>) -> (r: Result<
        (),
        ServiceError<KeysExhausted>,
    >)
        requires
            old(self).wf(),
        ensures
            final(self).wf(),
            r is Ok <==> old(self).next_key() + missing_users(
                rows_of_room(old(self)@, room_id),
                names(user_ids@),
            ).len() <= i32::MAX,
            match r {
                Ok(_) => {
                    let added = missing_users(rows_of_room(old(self)@, room_id), names(user_ids@));
                    &&& final(self)@ == reconciled(
                        old(self)@,
                        room_id,
                        names(user_ids@),
                        keys_from(old(self).next_key(), added.len()),
                    )
                    &&& member_set(final(self)@, room_id) == names(user_ids@).to_set()
                    &&& final(self).next_key() == old(self).next_key() + added.len()
                },
                Err(e) => {
                    let stale = stale_ids(rows_of_room(old(self)@, room_id), names(user_ids@));
                    &&& e == if stale.len() > 0 {
                        ServiceError::PartialConvergence { cause: KeysExhausted }
                    } else {
                        ServiceError::StoreUnavailable { phase: Phase::Insert, cause: KeysExhausted }
                    }
                    &&& stale.len() == 0 ==> final(self)@ == old(self)@
                    &&& final(self)@ == pruned(old(self)@, room_id, names(user_ids@))
                    &&& final(self).next_key() == old(self).next_key()
                },
            },
    {
        proof {
            self.lemma_wf_keys();
        }
        let ghost before = self@;
        let ghost first = self.next_key();
        let ghost desired = names(user_ids@);
        let ghost current = rows_of_room(before, room_id);
        let ghost added = missing_users(current, desired);
        let (state, action) = RoomUserService::update_room_user::<KeysExhausted>(
            room_id,
            user_ids,
            SyncState::Idle,
            SyncEvent::Begin,
        );
        let read = match action {
            SyncAction::Fetch { room_id: asked } => self.rows_of(asked),
            _ => Vec::new(),
        };
        let (state, action) = RoomUserService::update_room_user::<KeysExhausted>(
            room_id,
            user_ids,
            state,
            SyncEvent::Current(Ok(read)),
        );
        let (state, action) = match action {
            SyncAction::Remove { ids } => {
                self.delete_many(&ids);
                RoomUserService::update_room_user::<KeysExhausted>(
                    room_id,
                    user_ids,
                    state,
                    SyncEvent::Removed(Ok(())),
                )
            },
            other => {
                proof {
                    assert(stale_ids(current, desired).len() == 0);
                    assert forall|row: Member| before.contains(row) implies spared(
                        stale_ids(current, desired),
                    )(row) by {}
                    lemma_keep_all(before, spared(stale_ids(current, desired)));
                }
                (state, other)
            },
        };
        assert(self@ == pruned(before, room_id, desired));
        let (state, action) = match action {
            SyncAction::Add { rows } => {
                let done = self.insert_many(&rows);
                proof {
                    assert(drafts(rows@).len() == added.len());
                    assert(minted(first, drafts(rows@)) =~= fresh_rows(
                        room_id,
                        added,
                        keys_from(first, added.len()),
                    ));
                }
                RoomUserService::update_room_user::<KeysExhausted>(
                    room_id,
                    user_ids,
                    state,
                    SyncEvent::Added(done),
                )
            },
            other => {
                proof {
                    assert(added.len() == 0);
                    assert(self@ + fresh_rows(room_id, added, keys_from(first, added.len()))
                        =~= self@);
                }
                (state, other)
            },
        };
        proof {
            law_convergence(before, room_id, desired, keys_from(first, added.len()));
        }
        match action {
            SyncAction::Finish(r) => r,
            _ => Ok(()),
        }
    }
}

} // verus!
