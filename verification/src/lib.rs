//! Booking core of a meeting-room service.
//!
//! The crate holds the decisions of the service: how a room's participant
//! rows are brought in line with a wanted list, how a room code is drawn, and
//! which answer each request gets. Everything that talks to a database or a
//! network lives with the caller, which performs the actions that the
//! functions here ask for and hands their outcomes back.

pub mod api;
pub mod common;
pub mod entities;
pub mod gate;
pub mod ledger;
pub mod memory;
pub mod services;
pub mod text;
