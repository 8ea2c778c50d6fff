//! What is done with a result set besides showing it.

pub mod output;
