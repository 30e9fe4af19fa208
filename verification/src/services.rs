//! The store-facing services: what to ask of the store, and what to make of
//! its answers.

pub mod room;
pub mod room_user;
pub mod user;
