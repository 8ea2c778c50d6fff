//! The pager that a session uses, as the environment asks for it.

use crate::domain::pager::{Pager, PagerError};
use vstd::prelude::*;
use vstd::string::*;

verus! {

/// The variable that may hold the command line of the user's pager.
pub const PAGER_ENV_VAR: &'static str = "GRAFQ_PAGER";

/// What reading a variable of the environment gave.
#[derive(Debug)]
pub enum EnvLookup {
    /// The variable is set to this text.
    Present(String),
    /// The variable is not set.
    NotPresent,
    /// The variable is set to something that is no text.
    NotUnicode,
}

/// Why a variable of the environment could not be used.
#[derive(Debug)]
pub enum EnvVarError {
    /// The variable of this name holds something that is no text.
    EnvVarIsInvalid(String),
}

impl EnvVarError {
    /// The text that describes the error.
    pub open spec fn spec_message(self) -> Seq<char> {
        match self {
            EnvVarError::EnvVarIsInvalid(name) => "environment variable \""@ + name@
                + "\" is not valid unicode"@,
        }
    }

    /// The text that describes the error.
    pub fn to_string(&self) -> (r: String)
        ensures
            r@ == self.spec_message(),
    {
        match self {
            EnvVarError::EnvVarIsInvalid(name) => crate::text::concat3(
                "environment variable \"",
                name.as_str(),
                "\" is not valid unicode",
            ),
        }
    }
}

/// The value of the variable `key`, given what reading it gave: the text,
/// nothing where it is not set, and an error that names the variable where
/// it holds no text.
pub fn get_env_var(key: &str, lookup: EnvLookup) -> (r: Result<Option<String>, EnvVarError>)
    ensures
        match lookup {
            EnvLookup::Present(value) => r == Ok::<Option<String>, EnvVarError>(Some(value)),
            EnvLookup::NotPresent => r == Ok::<Option<String>, EnvVarError>(None),
            EnvLookup::NotUnicode => r is Err && r->Err_0->EnvVarIsInvalid_0@ == key@,
        },
{
    match lookup {
        EnvLookup::Present(value) => Ok(Some(value)),
        EnvLookup::NotPresent => Ok(None),
        EnvLookup::NotUnicode => Err(EnvVarError::EnvVarIsInvalid(String::from_str(key))),
    }
}

/// What may come of asking for the session's pager, given what reading
/// the pager variable gave.
pub open spec fn pager_outcome(lookup: EnvLookup, r: Result<Pager, PagerError>) -> bool {
    match lookup {
        EnvLookup::Present(command) => Pager::custom_outcome(command@, r),
        EnvLookup::NotPresent => Pager::default_outcome(r),
        EnvLookup::NotUnicode => r is Err && r->Err_0 is InvalidVariable
            && r->Err_0->InvalidVariable_name@ == PAGER_ENV_VAR@,
    }
}

/// The pager of the session: the one that the pager variable names where
/// it is set, else the built-in one. Either is had only where its program
/// is found on this machine. `lookup` is what reading the pager variable
/// gave.
pub fn get_pager(lookup: EnvLookup) -> (r: Result<Pager, PagerError>)
    ensures
        pager_outcome(lookup, r),
{
    match get_env_var(PAGER_ENV_VAR, lookup) {
        Err(EnvVarError::EnvVarIsInvalid(name)) => Err(PagerError::InvalidVariable { name }),
        Ok(Some(command)) => Pager::custom(command.as_str()),
        Ok(None) => Pager::default(),
    }
}

} // verus!
