//! What can go wrong for the program as a whole, and what the user is
//! told to do about it.

use crate::cmds::console::ConsoleCmdError;
use crate::cmds::query::QueryCmdError;
use crate::repository::client::DbClientError;
use crate::text::concat2;
use vstd::prelude::*;
use vstd::string::*;

verus! {

/// What to do where the address of the database is not set.
pub const DB_URI_NOT_SET_FOLLOW_UP: &'static str =
    "grafq requires the environment variable DB_URI to be set.

- For an AWS Neptune database, use the https scheme. Neptune uses IAM
    authentication, so ensure your AWS credentials are configured correctly (via
    environment variables or the AWS shared config file):

    DB_URI=\"https://abc.xyz.us-east-1.neptune.amazonaws.com:8182\"

- For a Neo4j database, use the bolt scheme and provide authentication details:

    DB_URI=\"bolt://127.0.0.1:7687\"
    NEO4J_USER=\"neo4j\"
    NEO4J_PASSWORD=\"your-password\"
    NEO4J_DB=\"neo4j\"";

/// What to do where the address names a protocol that is not known.
pub const UNSUPPORTED_SCHEME_FOLLOW_UP: &'static str =
    "Only 'bolt' and 'https' schemes are supported by grafq.
Use bolt for neo4j, and https for AWS Neptune.";

/// What to do where the address names no protocol.
pub const INVALID_URI_FOLLOW_UP: &'static str =
    "The URI needs to be in the form <scheme>://<host>:<port>. For example:
- bolt://127.0.0.1:7687 (for neo4j)
- https://abc.xyz.us-east-1.neptune.amazonaws.com:8182 (for AWS Neptune)";

/// What to do where a `bolt` database lacks its user, password or name.
pub const NEO4J_INFO_MISSING_FOLLOW_UP: &'static str =
    "The environment variables NEO4J_USER, NEO4J_PASSWORD, and NEO4J_DB need to be set when connecting
to a neo4j database (which was determined by the bolt scheme in DB_URI).";

/// Why the program failed.
#[derive(Debug)]
pub enum AppError {
    /// The directories of the user could not be found; the cause is
    /// added.
    XdgError(String),
    /// The command line asks for something that cannot be.
    InvalidCLIUsage(&'static str),
    /// The console failed.
    ConsoleCmdError(ConsoleCmdError),
    /// The one-off query failed.
    QueryCmdError(QueryCmdError),
    /// Anything else.
    Uncategorised(String),
}

/// What the user is told to do about a failure to choose a database,
/// where there is something to tell.
pub open spec fn spec_follow_up_db_client_error(err: DbClientError) -> Option<Seq<char>> {
    match err {
        DbClientError::CouldntReadEnvVar(_) => None,
        DbClientError::DBUriNotSet => Some(DB_URI_NOT_SET_FOLLOW_UP@),
        DbClientError::DBUriHasUnsupportedProtocol(_) => Some(UNSUPPORTED_SCHEME_FOLLOW_UP@),
        DbClientError::DBUriIsInvalid(_) => Some(INVALID_URI_FOLLOW_UP@),
        DbClientError::Neo4jConnectionInfoMissing(_) => Some(NEO4J_INFO_MISSING_FOLLOW_UP@),
        DbClientError::Uncategorised(_) => None,
    }
}

/// What the user is told to do about a failure to choose a database,
/// where there is something to tell.
pub fn follow_up_db_client_error(err: &DbClientError) -> (r: Option<String>)
    ensures
        match r {
            Some(text) => spec_follow_up_db_client_error(*err) == Some(text@),
            None => spec_follow_up_db_client_error(*err) is None,
        },
{
    match err {
        DbClientError::CouldntReadEnvVar(_) => None,
        DbClientError::DBUriNotSet => Some(String::from_str(DB_URI_NOT_SET_FOLLOW_UP)),
        DbClientError::DBUriHasUnsupportedProtocol(_) => Some(
            String::from_str(UNSUPPORTED_SCHEME_FOLLOW_UP),
        ),
        DbClientError::DBUriIsInvalid(_) => Some(String::from_str(INVALID_URI_FOLLOW_UP)),
        DbClientError::Neo4jConnectionInfoMissing(_) => Some(
            String::from_str(NEO4J_INFO_MISSING_FOLLOW_UP),
        ),
        DbClientError::Uncategorised(_) => None,
    }
}

impl AppError {
    /// The text that describes the error.
    pub open spec fn spec_message(self) -> Seq<char> {
        match self {
            AppError::XdgError(cause) => "couldn't determine your home directory: "@ + cause@,
            AppError::InvalidCLIUsage(text) => text@,
            AppError::ConsoleCmdError(e) => e.spec_message(),
            AppError::QueryCmdError(e) => e.spec_message(),
            AppError::Uncategorised(text) => text@,
        }
    }

    /// What the user is told to do about the error: something only where
    /// no database could be chosen.
    pub open spec fn spec_follow_up(self) -> Option<Seq<char>> {
        match self {
            AppError::ConsoleCmdError(ConsoleCmdError::CouldntBuildDbClient(e)) => {
                spec_follow_up_db_client_error(e)
            },
            AppError::QueryCmdError(QueryCmdError::CouldntBuildDbClient(e)) => {
                spec_follow_up_db_client_error(e)
            },
            _ => None,
        }
    }

    /// The text that describes the error.
    pub fn to_string(&self) -> (r: String)
        ensures
            r@ == self.spec_message(),
    {
        match self {
            AppError::XdgError(cause) => concat2(
                "couldn't determine your home directory: ",
                cause.as_str(),
            ),
            AppError::InvalidCLIUsage(text) => String::from_str(text),
            AppError::ConsoleCmdError(e) => e.to_string(),
            AppError::QueryCmdError(e) => e.to_string(),
            AppError::Uncategorised(text) => text.clone(),
        }
    }

    /// What the user is told to do about the error, where there is
    /// something to tell.
    pub fn follow_up(&self) -> (r: Option<String>)
        ensures
            match r {
                Some(text) => self.spec_follow_up() == Some(text@),
                None => self.spec_follow_up() is None,
            },
    {
        match self {
            AppError::XdgError(_) => None,
            AppError::InvalidCLIUsage(_) => None,
            AppError::ConsoleCmdError(e) => match e {
                ConsoleCmdError::CouldntBuildDbClient(e) => follow_up_db_client_error(e),
                ConsoleCmdError::Uncategorised(_) => None,
            },
            AppError::QueryCmdError(e) => match e {
                QueryCmdError::CouldntBuildDbClient(e) => follow_up_db_client_error(e),
                QueryCmdError::Uncategorised(_) => None,
            },
            AppError::Uncategorised(_) => None,
        }
    }

    /// Whether the error is one that should not happen, so that the user
    /// is asked to report it: only a failure to find the user's
    /// directories is.
    pub fn is_unexpected(&self) -> (r: bool)
        ensures
            r == (*self is XdgError),
    {
        match self {
            AppError::XdgError(_) => true,
            AppError::InvalidCLIUsage(_) => false,
            AppError::ConsoleCmdError(_) => false,
            AppError::QueryCmdError(_) => false,
            AppError::Uncategorised(_) => false,
        }
    }
}

} // verus!
