//! The room-participant association.

use vstd::prelude::*;

verus! {

/// One participant row: user `user_id` takes part in room `room_id`.
/// `id` is the surrogate key that the store assigned.
#[derive(Clone, Debug, PartialEq, Eq)]
pub struct Model {
    pub id: i32,
    pub user_id: String,
    pub room_id: i32,
}

/// Mathematical value of a participant row.
pub struct Member {
    pub id: i32,
    pub user: Seq<char>,
    pub room: i32,
}

impl View for Model {
    type V = Member;

    open spec fn view(&self) -> Member {
        Member { id: self.id, user: self.user_id@, room: self.room_id }
    }
}

impl Model {
    /// A copy of the row.
    pub fn duplicate(&self) -> (copy: Model)
        ensures
            copy@ == self@,
    {
        Model { id: self.id, user_id: self.user_id.clone(), room_id: self.room_id }
    }
}

/// The rows of a vector, each by its value.
pub open spec fn members(rows: Seq<Model>) -> Seq<Member> {
    rows.map_values(|m: Model| m@)
}

/// The function that gives the user of a row.
pub open spec fn user_key() -> spec_fn(Member) -> Seq<char> {
    |r: Member| r.user
}

/// The function that gives the surrogate key of a row.
pub open spec fn id_key() -> spec_fn(Member) -> i32 {
    |r: Member| r.id
}

/// The users of a list of rows, in row order.
pub open spec fn users_of(rows: Seq<Member>) -> Seq<Seq<char>> {
    rows.map_values(user_key())
}

/// The surrogate keys of a list of rows, in row order.
pub open spec fn ids_of(rows: Seq<Member>) -> Seq<i32> {
    rows.map_values(id_key())
}

/// A participant row that the store has yet to create.
#[derive(Clone, Debug, PartialEq, Eq)]
pub struct NewModel {
    pub user_id: String,
    pub room_id: i32,
}

} // verus!
