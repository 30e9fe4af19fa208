//! Rooms: scheduled meetings.

use vstd::prelude::*;

verus! {

/// One room row. Times are seconds since the epoch.
#[derive(Clone, Debug, PartialEq, Eq)]
pub struct Model {
    pub id: i32,
    pub code: String,
    pub is_canceled: bool,
    pub cur_egress_id: String,
    pub record_videos: String,
    pub start_time: i64,
    pub end_time: i64,
    pub admin: String,
}

/// Mathematical value of a room row.
pub struct Room {
    pub id: i32,
    pub code: Seq<char>,
    pub is_canceled: bool,
    pub cur_egress_id: Seq<char>,
    pub record_videos: Seq<char>,
    pub start_time: i64,
    pub end_time: i64,
    pub admin: Seq<char>,
}

impl View for Model {
    type V = Room;

    open spec fn view(&self) -> Room {
        Room {
            id: self.id,
            code: self.code@,
            is_canceled: self.is_canceled,
            cur_egress_id: self.cur_egress_id@,
            record_videos: self.record_videos@,
            start_time: self.start_time,
            end_time: self.end_time,
            admin: self.admin@,
        }
    }
}

impl Model {
    /// A copy of the row.
    pub fn duplicate(&self) -> (copy: Model)
        ensures
            copy@ == self@,
    {
        Model {
            id: self.id,
            code: self.code.clone(),
            is_canceled: self.is_canceled,
            cur_egress_id: self.cur_egress_id.clone(),
            record_videos: self.record_videos.clone(),
            start_time: self.start_time,
            end_time: self.end_time,
            admin: self.admin.clone(),
        }
    }
}

/// The rooms of a vector, each by its value.
pub open spec fn rooms(rows: Seq<Model>) -> Seq<Room> {
    rows.map_values(|m: Model| m@)
}

/// A room that the store has yet to create.
#[derive(Clone, Debug, PartialEq, Eq)]
pub struct NewModel {
    pub code: String,
    pub start_time: i64,
    pub end_time: i64,
    pub admin: String,
}

} // verus!
