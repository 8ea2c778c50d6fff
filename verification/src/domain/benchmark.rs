//! How often a benchmark runs its query, and what it reports of the runs.

use crate::text::{decimal, parse_u16, spec_parse_u16, to_decimal};
use vstd::prelude::*;
use vstd::string::*;

verus! {

/// What a caller is told when the number of runs is no number.
pub const NOT_A_NUMBER: &'static str = "value is not a valid number";

/// What a caller is told when the number of runs is zero.
pub const NOT_POSITIVE: &'static str = "needs to be greater than 0";

/// A number of benchmark runs: at least one.
#[derive(Debug, Clone, Copy)]
pub struct BenchmarkNumRuns(u16);

impl BenchmarkNumRuns {
    #[verifier::type_invariant]
    spec fn positive(self) -> bool {
        self.0 > 0
    }

    /// The number of runs.
    pub closed spec fn spec_value(self) -> u16 {
        self.0
    }

    /// The number of runs, which is never zero.
    pub fn value(&self) -> (r: u16)
        ensures
            r == self.spec_value(),
            r > 0,
    {
        proof {
            use_type_invariant(self);
        }
        self.0
    }

    /// The number of runs in decimal.
    pub fn to_string(&self) -> (r: String)
        ensures
            r@ == decimal(self.spec_value() as nat),
    {
        to_decimal(self.0 as u128)
    }

    /// Reads a number of runs: a decimal number from 1 to 65535.
    pub fn from_str(s: &str) -> (r: Result<BenchmarkNumRuns, &'static str>)
        ensures
            match r {
                Ok(runs) => spec_parse_u16(s@) == Some(runs.spec_value()) && runs.spec_value() > 0,
                Err(message) => match spec_parse_u16(s@) {
                    None => message@ == NOT_A_NUMBER@,
                    Some(n) => n == 0 && message@ == NOT_POSITIVE@,
                },
            },
    {
        match parse_u16(s) {
            None => Err(NOT_A_NUMBER),
            Some(number) => {
                if number == 0 {
                    Err(NOT_POSITIVE)
                } else {
                    Ok(BenchmarkNumRuns(number))
                }
            },
        }
    }
}

} // verus!
