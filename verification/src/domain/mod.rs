//! The values that the console and the one-shot query command work with.

pub mod benchmark;
pub mod output;
pub mod pager;
pub mod result;
