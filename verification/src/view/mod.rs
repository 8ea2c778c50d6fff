//! What the user sees: the table of a result set, and the console.

pub mod console;
pub mod input;
pub mod laws;
pub mod results;
