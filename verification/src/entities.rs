//! Rows of the relational store, as plain values.

pub mod room;
pub mod room_user;
pub mod user;
