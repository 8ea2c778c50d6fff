//! Which database a session talks to, as the environment says.
//!
//! The address of the database decides the kind: `https` is a managed
//! graph service, `bolt` a graph database that wants a user, a password
//! and the name of a database besides. The choice is made once, before the
//! session begins.

use crate::text::{concat3, spec_split_once, split_once, str_eq};
use crate::utils::{get_env_var, EnvLookup, EnvVarError};
use vstd::prelude::*;
use vstd::string::*;

verus! {

/// The variable that holds the address of the database.
pub const DB_URI_VAR: &'static str = "DB_URI";

/// The variable that holds the user of a `bolt` database.
pub const NEO4J_USER_VAR: &'static str = "NEO4J_USER";

/// The variable that holds the password of a `bolt` database.
pub const NEO4J_PASSWORD_VAR: &'static str = "NEO4J_PASSWORD";

/// The variable that holds the name of a `bolt` database.
pub const NEO4J_DB_VAR: &'static str = "NEO4J_DB";

/// What it takes to reach a `bolt` database.
#[derive(Debug)]
pub struct Neo4jConfig {
    pub db_uri: String,
    pub user: String,
    pub password: String,
    pub database_name: String,
}

/// The database that a session talks to.
#[derive(Debug)]
pub enum DbClient {
    /// A managed graph service at this address, reached with the
    /// credentials that the machine holds.
    Neptune(String),
    /// A graph database that speaks `bolt`.
    Neo4j(Neo4jConfig),
}

impl DbClient {
    /// The address of the database.
    pub open spec fn spec_db_uri(self) -> Seq<char> {
        match self {
            DbClient::Neptune(db_uri) => db_uri@,
            DbClient::Neo4j(config) => config.db_uri@,
        }
    }

    /// The address of the database, for display.
    pub fn db_uri(&self) -> (r: String)
        ensures
            r@ == self.spec_db_uri(),
    {
        match self {
            DbClient::Neptune(db_uri) => db_uri.clone(),
            DbClient::Neo4j(config) => config.db_uri.clone(),
        }
    }
}

/// Why no database could be chosen.
#[derive(Debug)]
pub enum DbClientError {
    /// A variable could not be read.
    CouldntReadEnvVar(EnvVarError),
    /// The address of the database is not set.
    DBUriNotSet,
    /// The address names a protocol that is not known.
    DBUriHasUnsupportedProtocol(String),
    /// The address names no protocol.
    DBUriIsInvalid(String),
    /// A variable that a `bolt` database needs is not set.
    Neo4jConnectionInfoMissing(String),
    /// Anything else.
    Uncategorised(String),
}

impl DbClientError {
    /// The text that describes the error.
    pub open spec fn spec_message(self) -> Seq<char> {
        match self {
            DbClientError::CouldntReadEnvVar(e) => e.spec_message(),
            DbClientError::DBUriNotSet => "DB_URI is not set"@,
            DbClientError::DBUriHasUnsupportedProtocol(protocol) => {
                "DB_URI has unsupported scheme: \""@ + protocol@ + "\""@
            },
            DbClientError::DBUriIsInvalid(db_uri) => "DB_URI is invalid: \""@ + db_uri@ + "\""@,
            DbClientError::Neo4jConnectionInfoMissing(name) => "environment variable \""@ + name@
                + "\" is missing"@,
            DbClientError::Uncategorised(text) => text@,
        }
    }

    /// The text that describes the error.
    pub fn to_string(&self) -> (r: String)
        ensures
            r@ == self.spec_message(),
    {
        match self {
            DbClientError::CouldntReadEnvVar(e) => e.to_string(),
            DbClientError::DBUriNotSet => String::from_str("DB_URI is not set"),
            DbClientError::DBUriHasUnsupportedProtocol(protocol) => concat3(
                "DB_URI has unsupported scheme: \"",
                protocol.as_str(),
                "\"",
            ),
            DbClientError::DBUriIsInvalid(db_uri) => concat3(
                "DB_URI is invalid: \"",
                db_uri.as_str(),
                "\"",
            ),
            DbClientError::Neo4jConnectionInfoMissing(name) => concat3(
                "environment variable \"",
                name.as_str(),
                "\" is missing",
            ),
            DbClientError::Uncategorised(text) => text.clone(),
        }
    }
}

/// The kinds of database, and what an address that names none is.
pub ghost enum Scheme {
    /// `https`
    Https,
    /// `bolt`
    Bolt,
    /// Another protocol, which is not known.
    Unsupported(Seq<char>),
    /// No protocol at all.
    Missing,
}

/// The kind of database that an address names: what stands before the
/// first `://` in it.
pub open spec fn spec_scheme(db_uri: Seq<char>) -> Scheme {
    match spec_split_once(db_uri, "://"@) {
        Some((protocol, _)) => if protocol == "https"@ {
            Scheme::Https
        } else if protocol == "bolt"@ {
            Scheme::Bolt
        } else {
            Scheme::Unsupported(protocol)
        },
        None => Scheme::Missing,
    }
}

/// Whether `r` is what reading the variable `name`, which a `bolt`
/// database needs, comes to.
pub open spec fn needed(name: Seq<char>, lookup: EnvLookup, r: Result<String, DbClientError>)
    -> bool {
    match lookup {
        EnvLookup::Present(value) => r == Ok::<String, DbClientError>(value),
        EnvLookup::NotPresent => r is Err && r->Err_0 is Neo4jConnectionInfoMissing
            && r->Err_0->Neo4jConnectionInfoMissing_0@ == name,
        EnvLookup::NotUnicode => r is Err && r->Err_0 is CouldntReadEnvVar
            && r->Err_0->CouldntReadEnvVar_0->EnvVarIsInvalid_0@ == name,
    }
}

fn get_neo4j_env_var(key: &str, lookup: EnvLookup) -> (r: Result<String, DbClientError>)
    ensures
        needed(key@, lookup, r),
{
    match get_env_var(key, lookup) {
        Err(e) => Err(DbClientError::CouldntReadEnvVar(e)),
        Ok(Some(value)) => Ok(value),
        Ok(None) => Err(DbClientError::Neo4jConnectionInfoMissing(String::from_str(key))),
    }
}

/// Whether `r` is the choice of database that the environment asks for.
/// The variables are looked at in this order: the address; then, for a
/// `bolt` database only, the user, the password and the name of the
/// database. The first that is missing or unreadable decides the error.
pub open spec fn spec_get_db_client(
    db_uri: EnvLookup,
    user: EnvLookup,
    password: EnvLookup,
    database_name: EnvLookup,
    r: Result<DbClient, DbClientError>,
) -> bool {
    match db_uri {
        EnvLookup::NotUnicode => r is Err && r->Err_0 is CouldntReadEnvVar
            && r->Err_0->CouldntReadEnvVar_0->EnvVarIsInvalid_0@ == DB_URI_VAR@,
        EnvLookup::NotPresent => r is Err && r->Err_0 is DBUriNotSet,
        EnvLookup::Present(uri) => match spec_scheme(uri@) {
            Scheme::Https => r == Ok::<DbClient, DbClientError>(DbClient::Neptune(uri)),
            Scheme::Unsupported(protocol) => r is Err && r->Err_0 is DBUriHasUnsupportedProtocol
                && r->Err_0->DBUriHasUnsupportedProtocol_0@ == protocol,
            Scheme::Missing => r == Err::<DbClient, DbClientError>(
                DbClientError::DBUriIsInvalid(uri),
            ),
            Scheme::Bolt => {
                if !(user is Present) {
                    r is Err && needed(
                        NEO4J_USER_VAR@,
                        user,
                        Err::<String, DbClientError>(r->Err_0),
                    )
                } else if !(password is Present) {
                    r is Err && needed(
                        NEO4J_PASSWORD_VAR@,
                        password,
                        Err::<String, DbClientError>(r->Err_0),
                    )
                } else if !(database_name is Present) {
                    r is Err && needed(
                        NEO4J_DB_VAR@,
                        database_name,
                        Err::<String, DbClientError>(r->Err_0),
                    )
                } else {
                    r == Ok::<DbClient, DbClientError>(
                        DbClient::Neo4j(
                            Neo4jConfig {
                                db_uri: uri,
                                user: user->Present_0,
                                password: password->Present_0,
                                database_name: database_name->Present_0,
                            },
                        ),
                    )
                }
            },
        },
    }
}

/// Chooses the database that the environment asks for. The arguments are
/// what reading the four variables gave.
pub fn get_db_client(
    db_uri: EnvLookup,
    user: EnvLookup,
    password: EnvLookup,
    database_name: EnvLookup,
) -> (r: Result<DbClient, DbClientError>)
    ensures
        spec_get_db_client(db_uri, user, password, database_name, r),
{
    let uri = match get_env_var(DB_URI_VAR, db_uri) {
        Err(e) => {
            return Err(DbClientError::CouldntReadEnvVar(e));
        },
        Ok(None) => {
            return Err(DbClientError::DBUriNotSet);
        },
        Ok(Some(uri)) => uri,
    };
    let protocol = match split_once(uri.as_str(), "://") {
        None => {
            return Err(DbClientError::DBUriIsInvalid(uri));
        },
        Some((protocol, _)) => String::from_str(protocol),
    };
    if str_eq(protocol.as_str(), "https") {
        Ok(DbClient::Neptune(uri))
    } else if str_eq(protocol.as_str(), "bolt") {
        let user = match get_neo4j_env_var(NEO4J_USER_VAR, user) {
            Ok(value) => value,
            Err(e) => {
                return Err(e);
            },
        };
        let password = match get_neo4j_env_var(NEO4J_PASSWORD_VAR, password) {
            Ok(value) => value,
            Err(e) => {
                return Err(e);
            },
        };
        let database_name = match get_neo4j_env_var(NEO4J_DB_VAR, database_name) {
            Ok(value) => value,
            Err(e) => {
                return Err(e);
            },
        };
        Ok(DbClient::Neo4j(Neo4jConfig { db_uri: uri, user, password, database_name }))
    } else {
        Err(DbClientError::DBUriHasUnsupportedProtocol(protocol))
    }
}

} // verus!
