//! The database that a session talks to.

pub mod client;
