//! The two commands of the program: the console, and the one-off query.

pub mod console;
pub mod query;
