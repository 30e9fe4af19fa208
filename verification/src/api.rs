//! The requests of the service, each as a chain of decisions.

pub mod room;
pub mod user;
