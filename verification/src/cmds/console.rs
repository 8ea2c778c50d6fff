//! The console command: what has to be in place before a session begins.

use crate::domain::pager::{Pager, PagerError};
use crate::repository::client::DbClientError;
use crate::text::concat2;
use crate::utils::{get_pager, pager_outcome, EnvLookup};
use crate::view::console::{Console, ConsoleConfig, ConsoleView, PhaseView};
use vstd::prelude::*;
use vstd::string::*;

verus! {

/// Why the console could not be opened.
#[derive(Debug)]
pub enum ConsoleCmdError {
    /// No database could be chosen.
    CouldntBuildDbClient(DbClientError),
    /// Anything else.
    Uncategorised(String),
}

impl ConsoleCmdError {
    /// The text that describes the error.
    pub open spec fn spec_message(self) -> Seq<char> {
        match self {
            ConsoleCmdError::CouldntBuildDbClient(e) => "couldn't build db client: "@
                + e.spec_message(),
            ConsoleCmdError::Uncategorised(text) => text@,
        }
    }

    /// The text that describes the error.
    pub fn to_string(&self) -> (r: String)
        ensures
            r@ == self.spec_message(),
    {
        match self {
            ConsoleCmdError::CouldntBuildDbClient(e) => {
                let cause = e.to_string();
                concat2("couldn't build db client: ", cause.as_str())
            },
            ConsoleCmdError::Uncategorised(text) => text.clone(),
        }
    }
}

/// The session as it stands before it begins, given the pager that it has.
pub open spec fn fresh(db_uri: Seq<char>, config: ConsoleConfig, pager: Option<Pager>)
    -> ConsoleView {
    ConsoleView {
        db_uri,
        config: config@,
        pager,
        last_ctrl_c: None,
        history: Seq::empty(),
        phase: PhaseView::Starting,
    }
}

/// Makes the session for the database at `db_uri`. A session that pages
/// results from the start needs its pager at once, and does not begin
/// where none can be had; any other gets its pager when it first asks for
/// one. `pager_variable` is what reading the pager variable gave.
pub fn handle_console_cmd(db_uri: String, config: ConsoleConfig, pager_variable: EnvLookup) -> (r:
    Result<Console, ConsoleCmdError>)
    ensures
        match r {
            Ok(console) => if config.page_results {
                console@.pager is Some && pager_outcome(
                    pager_variable,
                    Ok::<Pager, PagerError>(console@.pager->Some_0),
                ) && console@ == fresh(db_uri@, config, console@.pager)
            } else {
                console@ == fresh(db_uri@, config, None)
            },
            Err(e) => config.page_results && e is Uncategorised && exists|cause: PagerError|
                #[trigger] pager_outcome(pager_variable, Err::<Pager, PagerError>(cause))
                    && e->Uncategorised_0@ == cause.spec_message(),
        },
{
    let pager = if config.page_results {
        match get_pager(pager_variable) {
            Ok(pager) => Some(pager),
            Err(cause) => {
                return Err(ConsoleCmdError::Uncategorised(cause.to_string()));
            },
        }
    } else {
        None
    };
    Ok(Console::new(db_uri, config, pager))
}

} // verus!
