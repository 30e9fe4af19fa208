//! Participants of a room: bringing the stored rows in line with a wanted
//! list of users.

use vstd::prelude::*;
use crate::common::{Phase, ServiceError};
use crate::entities::room_user::{ids_of, members, users_of, Member, Model, NewModel};
use crate::text::{contains_name, names};

verus! {

/// The test that picks the rows whose user is not wanted.
pub open spec fn unwanted(desired: Seq<Seq<char>>) -> spec_fn(Member) -> bool {
    |r: Member| !desired.contains(r.user)
}

/// The test that picks the users who have no row yet.
pub open spec fn absent(current: Seq<Member>) -> spec_fn(Seq<char>) -> bool {
    |u: Seq<char>| !users_of(current).contains(u)
}

/// `s` without repetitions: of each value the first occurrence stays.
pub open spec fn first_occurrences(s: Seq<Seq<char>>) -> Seq<Seq<char>>
    decreases s.len(),
{
    if s.len() == 0 {
        s
    } else {
        let head = first_occurrences(s.drop_last());
        if head.contains(s.last()) {
            head
        } else {
            head.push(s.last())
        }
    }
}

/// The rows to delete: those of `current` whose user is not in `desired`.
pub open spec fn stale_rows(current: Seq<Member>, desired: Seq<Seq<char>>) -> Seq<Member> {
    current.filter(unwanted(desired))
}

/// The surrogate keys of the rows to delete, in row order.
pub open spec fn stale_ids(current: Seq<Member>, desired: Seq<Seq<char>>) -> Seq<i32> {
    ids_of(stale_rows(current, desired))
}

/// The users to insert: those of `desired` that have no row in `current`,
/// each once, in the order of their first mention.
pub open spec fn missing_users(current: Seq<Member>, desired: Seq<Seq<char>>) -> Seq<Seq<char>> {
    first_occurrences(desired.filter(absent(current)))
}

/// Whether some row of `rows` belongs to user `name`.
pub fn has_member(rows: &Vec<Model>, name: &String) -> (found: bool)
    ensures
        found == users_of(members(rows@)).contains(name@),
{
    let mut i: usize = 0;
    while i < rows.len()
        invariant
            i <= rows.len(),
            forall|k: int| 0 <= k < i ==> users_of(members(rows@))[k] != name@,
        decreases rows.len() - i,
    {
        if rows[i].user_id == *name {
            assert(users_of(members(rows@))[i as int] == name@);
            return true;
        }
        i += 1;
    }
    false
}

/// The writes that bring a room's rows in line with a wanted list.
#[derive(Clone, Debug, PartialEq, Eq)]
pub struct MembershipPlan {
    /// Surrogate keys of the rows to delete.
    pub remove: Vec<i32>,
    /// Users to insert a row for.
    pub add: Vec<String>,
}

/// The rows to create, each as the pair of its room and its user.
pub open spec fn drafts(rows: Seq<NewModel>) -> Seq<(i32, Seq<char>)> {
    rows.map_values(|r: NewModel| (r.room_id, r.user_id@))
}

/// One row in `room` for each of `users`, in their order.
pub open spec fn drafts_for(room: i32, users: Seq<Seq<char>>) -> Seq<(i32, Seq<char>)> {
    users.map_values(|u: Seq<char>| (room, u))
}

/// Where a reconciliation stands between two store calls.
#[derive(Clone, Debug, PartialEq, Eq)]
pub enum SyncState {
    /// Nothing has been asked of the store yet.
    Idle,
    /// The rows of the room have been asked for.
    Reading,
    /// The stale rows are being deleted; `pending` are the users to insert
    /// once that is done.
    Removing { pending: Vec<String> },
    /// The missing rows are being inserted; `removed` says whether rows
    /// were deleted before.
    Adding { removed: bool },
    /// The reconciliation has ended.
    Closed,
}

/// What the caller reports to a reconciliation.
#[derive(Debug, PartialEq, Eq)]
pub enum SyncEvent<E> {
    /// The reconciliation is to start.
    Begin,
    /// The outcome of reading the rows of the room.
    Current(Result<Vec<Model>, E>),
    /// The outcome of the delete batch.
    Removed(Result<(), E>),
    /// The outcome of the insert batch.
    Added(Result<(), E>),
}

/// What a reconciliation asks of the caller next.
#[derive(Debug, PartialEq, Eq)]
pub enum SyncAction<E> {
    /// Read the rows of the room and report `Current`.
    Fetch { room_id: i32 },
    /// Delete the rows with these keys in one batch and report `Removed`.
    Remove { ids: Vec<i32> },
    /// Insert these rows in one batch and report `Added`.
    Add { rows: Vec<NewModel> },
    /// The reconciliation is over, with this result.
    Finish(Result<(), ServiceError<E>>),
    /// The event does not answer what was asked. Nothing is to be done, and
    /// the state is as it was.
    Reject,
}

/// What follows once no stale row is left: the insert batch for
/// `missing`, or the end where nobody is missing. `removed` says whether
/// rows were deleted to get there.
pub open spec fn proceeds_to_add<E>(
    room: i32,
    missing: Seq<Seq<char>>,
    removed: bool,
    next: SyncState,
    action: SyncAction<E>,
) -> bool {
    if missing.len() > 0 {
        &&& next == (SyncState::Adding { removed })
        &&& action matches SyncAction::Add { rows }
        &&& drafts(rows@) == drafts_for(room, missing)
    } else {
        &&& next is Closed
        &&& action == SyncAction::<E>::Finish(Ok(()))
    }
}

/// The transition of a reconciliation of `room` towards `desired`: in
/// `state`, on `event`, it moves to `next` and asks for `action`.
pub open spec fn sync_step<E>(
    room: i32,
    desired: Seq<Seq<char>>,
    state: SyncState,
    event: SyncEvent<E>,
    next: SyncState,
    action: SyncAction<E>,
) -> bool {
    match (state, event) {
        (SyncState::Idle, SyncEvent::Begin) => {
            &&& next is Reading
            &&& action == SyncAction::<E>::Fetch { room_id: room }
        },
        (SyncState::Reading, SyncEvent::Current(Ok(rows))) => {
            let stale = stale_ids(members(rows@), desired);
            let missing = missing_users(members(rows@), desired);
            if stale.len() > 0 {
                &&& next matches SyncState::Removing { pending }
                &&& names(pending@) == missing
                &&& action matches SyncAction::Remove { ids }
                &&& ids@ == stale
            } else {
                proceeds_to_add(room, missing, false, next, action)
            }
        },
        (SyncState::Reading, SyncEvent::Current(Err(e))) => {
            &&& next is Closed
            &&& action == SyncAction::Finish(
                Err(ServiceError::StoreUnavailable { phase: Phase::ReadCurrent, cause: e }),
            )
        },
        (SyncState::Removing { pending }, SyncEvent::Removed(Ok(_))) => proceeds_to_add(
            room,
            names(pending@),
            true,
            next,
            action,
        ),
        (SyncState::Removing { pending }, SyncEvent::Removed(Err(e))) => {
            &&& next is Closed
            &&& action == SyncAction::Finish(
                Err(ServiceError::StoreUnavailable { phase: Phase::Delete, cause: e }),
            )
        },
        (SyncState::Adding { .. }, SyncEvent::Added(Ok(_))) => {
            &&& next is Closed
            &&& action == SyncAction::<E>::Finish(Ok(()))
        },
        (SyncState::Adding { removed }, SyncEvent::Added(Err(e))) => {
            &&& next is Closed
            &&& action == SyncAction::Finish(
                Err(
                    if removed {
                        ServiceError::PartialConvergence { cause: e }
                    } else {
                        ServiceError::StoreUnavailable { phase: Phase::Insert, cause: e }
                    },
                ),
            )
        },
        _ => {
            &&& next == state
            &&& action is Reject
        },
    }
}

/// The rules for the participant rows of a room.
pub struct RoomUserService;

impl RoomUserService {
    /// Compares the rows of a room with the wanted users and says what to
    /// delete and what to insert. Rows of wanted users stay as they are.
    pub fn plan(current: &Vec<Model>, desired: &Vec<String>) -> (p: MembershipPlan)
        ensures
            p.remove@ == stale_ids(members(current@), names(desired@)),
            names(p.add@) == missing_users(members(current@), names(desired@)),
    {
        let ghost cur = members(current@);
        let ghost want = names(desired@);
        let mut remove: Vec<i32> = Vec::new();
        let mut i: usize = 0;
        while i < current.len()
            invariant
                i <= current.len(),
                cur == members(current@),
                want == names(desired@),
                remove@ == stale_ids(cur.take(i as int), want),
            decreases current.len() - i,
        {
            let wanted = contains_name(desired, &current[i].user_id);
            proof {
                let before = cur.take(i as int);
                assert(cur.take(i + 1) == before.push(cur[i as int]));
                before.lemma_filter_push(cur[i as int], unwanted(want));
                assert(cur[i as int].user == current@[i as int].user_id@);
                assert(ids_of(stale_rows(before, want).push(cur[i as int]))
                    == ids_of(stale_rows(before, want)).push(cur[i as int].id));
            }
            if !wanted {
                remove.push(current[i].id);
            }
            i += 1;
        }
        assert(cur.take(current.len() as int) == cur);
        let mut add: Vec<String> = Vec::new();
        let mut j: usize = 0;
        while j < desired.len()
            invariant
                j <= desired.len(),
                cur == members(current@),
                want == names(desired@),
                names(add@) == missing_users(cur, want.take(j as int)),
            decreases desired.len() - j,
        {
            let present = has_member(current, &desired[j]);
            let listed = contains_name(&add, &desired[j]);
            proof {
                let before = want.take(j as int);
                assert(want.take(j + 1) == before.push(want[j as int]));
                before.lemma_filter_push(want[j as int], absent(cur));
                assert(want[j as int] == desired@[j as int]@);
                let picked = before.filter(absent(cur));
                assert(picked.push(want[j as int]).drop_last() == picked);
            }
            if !present && !listed {
                let ghost old_add = add@;
                add.push(desired[j].clone());
                assert(names(add@) == names(old_add).push(want[j as int]));
            }
            j += 1;
        }
        assert(want.take(desired.len() as int) == want);
        MembershipPlan { remove, add }
    }

    /// One new row in `room_id` for each of `users`, in their order.
    pub fn rows_for(room_id: i32, users: &Vec<String>) -> (rows: Vec<NewModel>)
        ensures
            drafts(rows@) == drafts_for(room_id, names(users@)),
    {
        let mut rows: Vec<NewModel> = Vec::new();
        let mut i: usize = 0;
        while i < users.len()
            invariant
                i <= users.len(),
                drafts(rows@) == drafts_for(room_id, names(users@).take(i as int)),
            decreases users.len() - i,
        {
            let ghost before = rows@;
            rows.push(NewModel { user_id: users[i].clone(), room_id });
            proof {
                let u = names(users@);
                assert(u.take(i + 1) == u.take(i as int).push(u[i as int]));
                assert(drafts(rows@) == drafts(before).push((room_id, u[i as int])));
                assert(drafts_for(room_id, u.take(i as int).push(u[i as int])) == drafts_for(
                    room_id,
                    u.take(i as int),
                ).push((room_id, u[i as int])));
            }
            i += 1;
        }
        assert(names(users@).take(users.len() as int) == names(users@));
        rows
    }

    /// The insert batch for `room_users`: `None` where there is nothing to
    /// insert, so that the store is not called, else the rows as given.
    pub fn create_room_user(room_users: Vec<NewModel>) -> (batch: Option<Vec<NewModel>>)
        ensures
            batch == if room_users@.len() == 0 {
                None
            } else {
                Some(room_users)
            },
    {
        if room_users.len() == 0 {
            None
        } else {
            Some(room_users)
        }
    }

    /// The delete batch for `ids`: `None` where there is nothing to delete,
    /// so that the store is not called, else the keys as given.
    pub fn delete_room_user(ids: Vec<i32>) -> (batch: Option<Vec<i32>>)
        ensures
            batch == if ids@.len() == 0 {
                None
            } else {
                Some(ids)
            },
    {
        if ids.len() == 0 {
            None
        } else {
            Some(ids)
        }
    }

    /// What follows once no stale row is left: the insert batch for
    /// `pending`, or the end.
    fn add_or_finish<E>(room_id: i32, pending: Vec<String>, removed: bool) -> (out: (
        SyncState,
        SyncAction<E>,
    ))
        ensures
            proceeds_to_add(room_id, names(pending@), removed, out.0, out.1),
    {
        let rows = Self::rows_for(room_id, &pending);
        assert(drafts(rows@).len() == rows@.len());
        assert(drafts_for(room_id, names(pending@)).len() == names(pending@).len());
        match Self::create_room_user(rows) {
            Some(rows) => (SyncState::Adding { removed }, SyncAction::Add { rows }),
            None => (SyncState::Closed, SyncAction::Finish(Ok(()))),
        }
    }

    /// One step of bringing the participants of `room_id` in line with
    /// `user_ids`.
    ///
    /// The caller starts with `Idle` and `Begin`, performs each action on the
    /// store and reports its outcome with the state it got, until the action
    /// is `Finish`. The rows of unwanted users are deleted first, in one
    /// batch; then one row is inserted for each wanted user who has none.
    /// An empty batch is not sent. A failed read or delete ends the
    /// reconciliation before anything else is asked. A failed insert ends
    /// it as a partial convergence where rows were deleted before, and as
    /// a failure of the store where the room is as it was.
    pub fn update_room_user<E>(
        room_id: i32,
        user_ids: &Vec<String>,
        state: SyncState,
        event: SyncEvent<E>,
    ) -> (out: (SyncState, SyncAction<E>))
        ensures
            sync_step(room_id, names(user_ids@), state, event, out.0, out.1),
    {
        match state {
            SyncState::Idle => match event {
                SyncEvent::Begin => (SyncState::Reading, SyncAction::Fetch { room_id }),
                _ => (SyncState::Idle, SyncAction::Reject),
            },
            SyncState::Reading => match event {
                SyncEvent::Current(Ok(rows)) => {
                    let plan = Self::plan(&rows, user_ids);
                    match Self::delete_room_user(plan.remove) {
                        Some(ids) => (
                            SyncState::Removing { pending: plan.add },
                            SyncAction::Remove { ids },
                        ),
                        None => Self::add_or_finish(room_id, plan.add, false),
                    }
                },
                SyncEvent::Current(Err(e)) => (
                    SyncState::Closed,
                    SyncAction::Finish(
                        Err(ServiceError::StoreUnavailable { phase: Phase::ReadCurrent, cause: e }),
                    ),
                ),
                _ => (SyncState::Reading, SyncAction::Reject),
            },
            SyncState::Removing { pending } => match event {
                SyncEvent::Removed(Ok(_)) => Self::add_or_finish(room_id, pending, true),
                SyncEvent::Removed(Err(e)) => (
                    SyncState::Closed,
                    SyncAction::Finish(
                        Err(ServiceError::StoreUnavailable { phase: Phase::Delete, cause: e }),
                    ),
                ),
                _ => (SyncState::Removing { pending }, SyncAction::Reject),
            },
            SyncState::Adding { removed } => match event {
                SyncEvent::Added(Ok(_)) => (SyncState::Closed, SyncAction::Finish(Ok(()))),
                SyncEvent::Added(Err(e)) => {
                    let error = if removed {
                        ServiceError::PartialConvergence { cause: e }
                    } else {
                        ServiceError::StoreUnavailable { phase: Phase::Insert, cause: e }
                    };
                    (SyncState::Closed, SyncAction::Finish(Err(error)))
                },
                _ => (SyncState::Adding { removed }, SyncAction::Reject),
            },
            SyncState::Closed => (SyncState::Closed, SyncAction::Reject),
        }
    }
}

} // verus!
