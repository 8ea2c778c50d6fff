//! The formats in which a result set can be written to a file.

use crate::text::{eq_ignore_ascii_case, spec_eq_ignore_ascii_case};
use vstd::prelude::*;
use vstd::string::*;

verus! {

/// What a caller is told when a format's name is not known.
pub const INVALID_FORMAT: &'static str = "invalid format provided; allowed values: [csv, json]";

/// A format for result files.
#[derive(Debug, Clone, Copy, PartialEq, Eq, Structural)]
pub enum OutputFormat {
    Csv,
    Json,
}

/// The format that `s` names: the case of letters is not looked at, and
/// nothing is removed from `s`, so that white space around a name makes it
/// no name.
pub open spec fn spec_from_str(s: Seq<char>) -> Option<OutputFormat> {
    if spec_eq_ignore_ascii_case(s, "csv"@) {
        Some(OutputFormat::Csv)
    } else if spec_eq_ignore_ascii_case(s, "json"@) {
        Some(OutputFormat::Json)
    } else {
        None
    }
}

impl OutputFormat {
    /// The file extension of the format, which is also its name.
    pub open spec fn spec_extension(self) -> Seq<char> {
        match self {
            OutputFormat::Csv => "csv"@,
            OutputFormat::Json => "json"@,
        }
    }

    /// The file extension that files of this format carry.
    pub fn extension(&self) -> (r: &'static str)
        ensures
            r@ == self.spec_extension(),
    {
        match self {
            OutputFormat::Csv => "csv",
            OutputFormat::Json => "json",
        }
    }

    /// The format's name as the console shows it.
    pub fn to_string(&self) -> (r: String)
        ensures
            r@ == self.spec_extension(),
    {
        String::from_str(self.extension())
    }

    /// Reads a format's name, in any mix of upper and lower case and with
    /// nothing around it. Anything else is refused with a text that names
    /// the formats.
    pub fn from_str(s: &str) -> (r: Result<OutputFormat, &'static str>)
        ensures
            match r {
                Ok(format) => spec_from_str(s@) == Some(format),
                Err(message) => spec_from_str(s@) is None && message@ == INVALID_FORMAT@,
            },
    {
        if eq_ignore_ascii_case(s, "csv") {
            Ok(OutputFormat::Csv)
        } else if eq_ignore_ascii_case(s, "json") {
            Ok(OutputFormat::Json)
        } else {
            Err(INVALID_FORMAT)
        }
    }
}

} // verus!
