//! A mathematical model of the participant table, and the laws that the
//! membership plan obeys on it.
//!
//! The table is a sequence of rows over all rooms. The store deletes by
//! surrogate key and appends the rows that it is asked to insert, giving
//! each a key of its choosing.

use vstd::prelude::*;
use crate::entities::room_user::{ids_of, members, user_key, users_of, Member, Model};
use crate::services::room_user::{
    absent, first_occurrences, missing_users, stale_ids, stale_rows, sync_step, unwanted,
    SyncAction, SyncEvent, SyncState,
};

verus! {

/// The test that picks the rows of one room.
pub open spec fn in_room(room: i32) -> spec_fn(Member) -> bool {
    |r: Member| r.room == room
}

/// The test that picks the rows whose key is not among `ids`.
pub open spec fn spared(ids: Seq<i32>) -> spec_fn(Member) -> bool {
    |r: Member| !ids.contains(r.id)
}

/// The rows of `room`, in table order: what reading the room returns.
pub open spec fn rows_of_room(table: Seq<Member>, room: i32) -> Seq<Member> {
    table.filter(in_room(room))
}

/// The users of `room`, as a set.
pub open spec fn member_set(table: Seq<Member>, room: i32) -> Set<Seq<char>> {
    users_of(rows_of_room(table, room)).to_set()
}

/// The table after the rows with a key among `ids` are deleted.
pub open spec fn delete_rows(table: Seq<Member>, ids: Seq<i32>) -> Seq<Member> {
    table.filter(spared(ids))
}

/// The rows that inserting `users` into `room` creates, the k-th with key
/// `keys[k]`.
pub open spec fn fresh_rows(room: i32, users: Seq<Seq<char>>, keys: Seq<i32>) -> Seq<Member> {
    Seq::new(users.len(), |k: int| Member { id: keys[k], user: users[k], room: room })
}

/// The table after `users` are inserted into `room`.
pub open spec fn insert_rows(
    table: Seq<Member>,
    room: i32,
    users: Seq<Seq<char>>,
    keys: Seq<i32>,
) -> Seq<Member> {
    table + fresh_rows(room, users, keys)
}

/// Surrogate keys are primary keys: no two rows share one.
pub open spec fn keys_distinct(table: Seq<Member>) -> bool {
    ids_of(table).no_duplicates()
}

/// The table after the stale rows of `room` are deleted and nothing is
/// inserted: what a reconciliation leaves behind when its insert fails.
pub open spec fn pruned(table: Seq<Member>, room: i32, desired: Seq<Seq<char>>) -> Seq<Member> {
    delete_rows(table, stale_ids(rows_of_room(table, room), desired))
}

/// The table after a reconciliation of `room` towards `desired` went
/// through: the stale rows are deleted, then the missing users inserted.
pub open spec fn reconciled(
    table: Seq<Member>,
    room: i32,
    desired: Seq<Seq<char>>,
    keys: Seq<i32>,
) -> Seq<Member> {
    insert_rows(
        pruned(table, room, desired),
        room,
        missing_users(rows_of_room(table, room), desired),
        keys,
    )
}

/// A value is in a filtered sequence exactly if it is in the sequence and
/// passes the test.
pub proof fn lemma_filter_member<A>(s: Seq<A>, p: spec_fn(A) -> bool, x: A)
    ensures
        s.filter(p).contains(x) <==> (s.contains(x) && p(x)),
{
    if s.filter(p).contains(x) {
        s.lemma_filter_contains_rev(p, x);
        let i = choose|i: int| 0 <= i < s.filter(p).len() && s.filter(p)[i] == x;
        s.lemma_filter_pred(p, i);
    }
    if s.contains(x) && p(x) {
        let i = choose|i: int| 0 <= i < s.len() && s[i] == x;
        s.lemma_filter_contains(p, i);
    }
}

/// A filter that nothing passes leaves nothing.
pub proof fn lemma_filter_none<A>(s: Seq<A>, p: spec_fn(A) -> bool)
    requires
        forall|x: A| s.contains(x) ==> !p(x),
    ensures
        s.filter(p) == Seq::<A>::empty(),
{
    if s.filter(p).len() > 0 {
        let x = s.filter(p)[0];
        assert(s.filter(p).contains(x));
        lemma_filter_member(s, p, x);
    }
    assert(s.filter(p) =~= Seq::<A>::empty());
}

/// A filter that everything passes leaves everything.
pub proof fn lemma_keep_all<A>(s: Seq<A>, p: spec_fn(A) -> bool)
    requires
        forall|x: A| s.contains(x) ==> p(x),
    ensures
        s.filter(p) == s,
    decreases s.len(),
{
    if s.len() > 0 {
        let init = s.drop_last();
        assert(s == init.push(s.last()));
        init.lemma_filter_push(s.last(), p);
        assert(s.contains(s.last()));
        assert forall|x: A| init.contains(x) implies p(x) by {
            let i = choose|i: int| 0 <= i < init.len() && init[i] == x;
            assert(s[i] == x);
            assert(s.contains(x));
        }
        lemma_keep_all(init, p);
    } else {
        assert(s.filter(p) =~= s) by {
            s.lemma_filter_len(p);
        }
    }
}

/// A user is among the users of some rows exactly if one of the rows is
/// theirs.
pub proof fn lemma_user_has_row(rows: Seq<Member>, u: Seq<char>)
    ensures
        users_of(rows).contains(u) <==> exists|r: Member| #[trigger] rows.contains(r) && r.user == u,
{
    if users_of(rows).contains(u) {
        let i = choose|i: int| 0 <= i < users_of(rows).len() && users_of(rows)[i] == u;
        assert(rows.contains(rows[i]));
    }
    if exists|r: Member| #[trigger] rows.contains(r) && r.user == u {
        let r = choose|r: Member| #[trigger] rows.contains(r) && r.user == u;
        let i = choose|i: int| 0 <= i < rows.len() && rows[i] == r;
        assert(users_of(rows)[i] == u);
    }
}

/// Dropping repetitions keeps every value, adds none, and leaves no value
/// twice.
pub proof fn lemma_first_occurrences(s: Seq<Seq<char>>)
    ensures
        first_occurrences(s).no_duplicates(),
        forall|u: Seq<char>| first_occurrences(s).contains(u) <==> s.contains(u),
    decreases s.len(),
{
    if s.len() > 0 {
        let init = s.drop_last();
        let head = first_occurrences(init);
        lemma_first_occurrences(init);
        assert forall|u: Seq<char>| first_occurrences(s).contains(u) <==> s.contains(u) by {
            if s.contains(u) {
                let i = choose|i: int| 0 <= i < s.len() && s[i] == u;
                if i < s.len() - 1 {
                    assert(init[i] == u);
                    assert(init.contains(u));
                    assert(head.contains(u));
                    let k = choose|k: int| 0 <= k < head.len() && head[k] == u;
                    assert(first_occurrences(s)[k] == u);
                } else if !head.contains(u) {
                    assert(first_occurrences(s)[head.len() as int] == u);
                }
            }
            if first_occurrences(s).contains(u) {
                let k = choose|k: int|
                    0 <= k < first_occurrences(s).len() && first_occurrences(s)[k] == u;
                if k < head.len() {
                    assert(head[k] == u);
                    assert(head.contains(u));
                    assert(init.contains(u));
                    let i = choose|i: int| 0 <= i < init.len() && init[i] == u;
                    assert(s[i] == u);
                } else {
                    assert(s[s.len() - 1] == u);
                }
            }
        }
    }
}

/// After a reconciliation every row of the room belongs to a wanted user,
/// and every wanted user has a row in the room.
pub proof fn lemma_reconciled_rows(
    table: Seq<Member>,
    room: i32,
    desired: Seq<Seq<char>>,
    keys: Seq<i32>,
)
    requires
        keys_distinct(table),
    ensures
        forall|r: Member| #[trigger]
            rows_of_room(reconciled(table, room, desired, keys), room).contains(r)
                ==> desired.contains(r.user),
        forall|u: Seq<char>| #[trigger]
            desired.contains(u) ==> users_of(
                rows_of_room(reconciled(table, room, desired, keys), room),
            ).contains(u),
{
    let current = rows_of_room(table, room);
    let ids = stale_ids(current, desired);
    let kept = pruned(table, room, desired);
    let missing = missing_users(current, desired);
    let fresh = fresh_rows(room, missing, keys);
    let after = reconciled(table, room, desired, keys);
    let now = rows_of_room(after, room);
    lemma_first_occurrences(desired.filter(absent(current)));
    assert forall|r: Member| #[trigger] now.contains(r) implies desired.contains(r.user) by {
        lemma_filter_member(after, in_room(room), r);
        let i = choose|i: int| 0 <= i < after.len() && after[i] == r;
        if i < kept.len() {
            assert(kept.contains(kept[i]));
            lemma_filter_member(table, spared(ids), r);
            lemma_filter_member(table, in_room(room), r);
            if !desired.contains(r.user) {
                lemma_filter_member(current, unwanted(desired), r);
                let k = choose|k: int|
                    0 <= k < stale_rows(current, desired).len() && stale_rows(current, desired)[k]
                        == r;
                assert(ids[k] == r.id);
            }
        } else {
            let k = i - kept.len();
            assert(r == fresh[k]);
            assert(missing.contains(missing[k]));
            lemma_filter_member(desired, absent(current), r.user);
        }
    }
    assert forall|u: Seq<char>| #[trigger] desired.contains(u) implies users_of(now).contains(
        u,
    ) by {
        lemma_user_has_row(current, u);
        lemma_user_has_row(now, u);
        if users_of(current).contains(u) {
            let r = choose|r: Member| #[trigger] current.contains(r) && r.user == u;
            lemma_filter_member(table, in_room(room), r);
            if ids.contains(r.id) {
                let k = choose|k: int| 0 <= k < ids.len() && ids[k] == r.id;
                let other = stale_rows(current, desired)[k];
                assert(stale_rows(current, desired).contains(other));
                lemma_filter_member(current, unwanted(desired), other);
                lemma_filter_member(table, in_room(room), other);
                let a = choose|a: int| 0 <= a < table.len() && table[a] == r;
                let b = choose|b: int| 0 <= b < table.len() && table[b] == other;
                assert(ids_of(table)[a] == ids_of(table)[b]);
            }
            lemma_filter_member(table, spared(ids), r);
            let i = choose|i: int| 0 <= i < kept.len() && kept[i] == r;
            assert(after[i] == r);
            lemma_filter_member(after, in_room(room), r);
        } else {
            lemma_filter_member(desired, absent(current), u);
            let k = choose|k: int| 0 <= k < missing.len() && missing[k] == u;
            assert(after[kept.len() + k] == fresh[k]);
            lemma_filter_member(after, in_room(room), fresh[k]);
        }
    }
}

/// Convergence. After a reconciliation of `room` towards `desired` went
/// through, the users of the room are exactly the wanted ones, whatever the
/// room held before and whatever keys the store gave the new rows.
pub proof fn law_convergence(
    table: Seq<Member>,
    room: i32,
    desired: Seq<Seq<char>>,
    keys: Seq<i32>,
)
    requires
        keys_distinct(table),
    ensures
        member_set(reconciled(table, room, desired, keys), room) == desired.to_set(),
{
    lemma_reconciled_rows(table, room, desired, keys);
    let now = rows_of_room(reconciled(table, room, desired, keys), room);
    assert forall|u: Seq<char>| users_of(now).contains(u) implies desired.contains(u) by {
        lemma_user_has_row(now, u);
    }
    assert(member_set(reconciled(table, room, desired, keys), room) =~= desired.to_set());
}

/// Idempotence. A second reconciliation towards the same wanted users finds
/// nothing to delete and nothing to insert.
pub proof fn law_idempotence(
    table: Seq<Member>,
    room: i32,
    desired: Seq<Seq<char>>,
    keys: Seq<i32>,
)
    requires
        keys_distinct(table),
    ensures
        stale_ids(rows_of_room(reconciled(table, room, desired, keys), room), desired)
            == Seq::<i32>::empty(),
        missing_users(rows_of_room(reconciled(table, room, desired, keys), room), desired)
            == Seq::<Seq<char>>::empty(),
{
    lemma_reconciled_rows(table, room, desired, keys);
    let now = rows_of_room(reconciled(table, room, desired, keys), room);
    lemma_filter_none(now, unwanted(desired));
    lemma_filter_none(desired, absent(now));
    assert(stale_ids(now, desired) =~= Seq::<i32>::empty());
}

/// Idempotence, of the steps. Where a reconciliation has gone through, a
/// second one towards the same wanted users ends right after its read: it
/// asks for no delete and no insert.
pub proof fn law_second_run_writes_nothing<E>(
    table: Seq<Member>,
    room: i32,
    desired: Seq<Seq<char>>,
    keys: Seq<i32>,
    read: Vec<Model>,
    next: SyncState,
    action: SyncAction<E>,
)
    requires
        keys_distinct(table),
        members(read@) == rows_of_room(reconciled(table, room, desired, keys), room),
        sync_step(room, desired, SyncState::Reading, SyncEvent::Current(Ok(read)), next, action),
    ensures
        next is Closed,
        action == SyncAction::<E>::Finish(Ok(())),
{
    law_idempotence(table, room, desired, keys);
}

/// Filtering keeps distinct what was distinct: where no two items of `s`
/// have the same `key`, no two of the filtered ones have.
pub proof fn lemma_filter_keeps_distinct<A, B>(
    s: Seq<A>,
    key: spec_fn(A) -> B,
    p: spec_fn(A) -> bool,
)
    requires
        s.map_values(key).no_duplicates(),
    ensures
        s.filter(p).map_values(key).no_duplicates(),
    decreases s.len(),
{
    if s.len() == 0 {
        lemma_filter_none(s, p);
    } else {
        let init = s.drop_last();
        let x = s.last();
        assert(s == init.push(x));
        init.lemma_filter_push(x, p);
        assert forall|i: int, j: int|
            0 <= i < init.len() && 0 <= j < init.len() && i != j implies init.map_values(key)[i]
            != init.map_values(key)[j] by {
            assert(s.map_values(key)[i] != s.map_values(key)[j]);
        }
        lemma_filter_keeps_distinct(init, key, p);
        if p(x) {
            let kept = init.filter(p);
            let keys = kept.map_values(key);
            assert(kept.push(x).map_values(key) == keys.push(key(x)));
            assert forall|i: int| 0 <= i < kept.len() implies keys[i] != key(x) by {
                assert(kept.contains(kept[i]));
                lemma_filter_member(init, p, kept[i]);
                let a = choose|a: int| 0 <= a < init.len() && init[a] == kept[i];
                assert(s.map_values(key)[a] != s.map_values(key)[s.len() - 1]);
            }
        }
    }
}

/// Minimality of the insertions. A reconciliation inserts one row for each
/// wanted user who has none, and no other: as many rows as there are users
/// in the wanted set but not in the current one.
pub proof fn law_minimal_insertions(current: Seq<Member>, desired: Seq<Seq<char>>)
    ensures
        missing_users(current, desired).len() == desired.to_set().difference(
            users_of(current).to_set(),
        ).len(),
{
    let missing = missing_users(current, desired);
    lemma_first_occurrences(desired.filter(absent(current)));
    missing.unique_seq_to_set();
    assert forall|u: Seq<char>| missing.contains(u) <==> desired.contains(u) && !users_of(
        current,
    ).contains(u) by {
        lemma_filter_member(desired, absent(current), u);
    }
    assert(missing.to_set() =~= desired.to_set().difference(users_of(current).to_set()));
}

/// Minimality of the deletions. Where no user has two rows in the room, a
/// reconciliation deletes as many rows as there are users in the current
/// set but not in the wanted one.
pub proof fn law_minimal_deletions(current: Seq<Member>, desired: Seq<Seq<char>>)
    requires
        users_of(current).no_duplicates(),
    ensures
        stale_ids(current, desired).len() == users_of(current).to_set().difference(
            desired.to_set(),
        ).len(),
{
    let stale = stale_rows(current, desired);
    lemma_filter_keeps_distinct(current, user_key(), unwanted(desired));
    users_of(stale).unique_seq_to_set();
    assert forall|u: Seq<char>| users_of(stale).contains(u) <==> users_of(current).contains(u)
        && !desired.contains(u) by {
        lemma_user_has_row(stale, u);
        lemma_user_has_row(current, u);
        if users_of(stale).contains(u) {
            let r = choose|r: Member| #[trigger] stale.contains(r) && r.user == u;
            lemma_filter_member(current, unwanted(desired), r);
        }
        if users_of(current).contains(u) && !desired.contains(u) {
            let r = choose|r: Member| #[trigger] current.contains(r) && r.user == u;
            lemma_filter_member(current, unwanted(desired), r);
        }
    }
    assert(users_of(stale).to_set() =~= users_of(current).to_set().difference(desired.to_set()));
}

} // verus!
