//! Values that are fixed for every session.

use vstd::prelude::*;

verus! {

/// The directory that results are written to unless the user names one.
pub const DEFAULT_RESULTS_DIR: &'static str = ".grafq";

/// The prompt of the console.
pub const PROMPT: &'static str = ">> ";

/// Two interrupts at the prompt end the session when fewer milliseconds
/// than this lie between them.
pub const CTRL_C_QUIT_THRESHOLD_MILLIS: u64 = 1000;

} // verus!
