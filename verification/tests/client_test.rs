use grafq::cmds::console::{handle_console_cmd, ConsoleCmdError};
use grafq::cmds::query::QueryCmdError;
use grafq::domain::output::OutputFormat;
use grafq::error::{follow_up_db_client_error, AppError};
use grafq::repository::client::{get_db_client, DbClient, DbClientError};
use grafq::utils::{EnvLookup, EnvVarError};
use grafq::view::console::{ConsoleConfig, ConsoleEvent, Request};

fn present(value: &str) -> EnvLookup {
    EnvLookup::Present(value.to_string())
}

fn report(error: &AppError) -> String {
    let cause = match error {
        AppError::QueryCmdError(QueryCmdError::CouldntBuildDbClient(e)) => e.to_string(),
        AppError::ConsoleCmdError(ConsoleCmdError::CouldntBuildDbClient(e)) => e.to_string(),
        _ => String::new(),
    };
    let mut text = format!("Error: couldn't build db client\n\nCaused by:\n    {}\n", cause);
    if let Some(follow_up) = error.follow_up() {
        text.push('\n');
        text.push_str(&follow_up);
        text.push('\n');
    }
    text
}

//-------------//
//  FAILURES   //
//-------------//

#[test]
fn fails_if_provided_with_no_db_uri() {
    // GIVEN
    // WHEN
    let error = get_db_client(
        EnvLookup::NotPresent,
        EnvLookup::NotPresent,
        EnvLookup::NotPresent,
        EnvLookup::NotPresent,
    )
    .expect_err("result should've been an error");
    let error = AppError::QueryCmdError(QueryCmdError::CouldntBuildDbClient(error));

    // THEN
    assert_eq!(
        report(&error),
        r#"Error: couldn't build db client

Caused by:
    DB_URI is not set

grafq requires the environment variable DB_URI to be set.

- For an AWS Neptune database, use the https scheme. Neptune uses IAM
    authentication, so ensure your AWS credentials are configured correctly (via
    environment variables or the AWS shared config file):

    DB_URI="https://abc.xyz.us-east-1.neptune.amazonaws.com:8182"

- For a Neo4j database, use the bolt scheme and provide authentication details:

    DB_URI="bolt://127.0.0.1:7687"
    NEO4J_USER="neo4j"
    NEO4J_PASSWORD="your-password"
    NEO4J_DB="neo4j"
"#
    );
    assert_eq!(error.to_string(), "couldn't build db client: DB_URI is not set");
    assert!(!error.is_unexpected());
}

#[test]
fn fails_if_provided_with_invalid_db_uri_scheme() {
    // GIVEN
    // WHEN
    let error = get_db_client(
        present("invalid://abc.xyz:8182"),
        EnvLookup::NotPresent,
        EnvLookup::NotPresent,
        EnvLookup::NotPresent,
    )
    .expect_err("result should've been an error");
    let error = AppError::QueryCmdError(QueryCmdError::CouldntBuildDbClient(error));

    // THEN
    assert_eq!(
        report(&error),
        r#"Error: couldn't build db client

Caused by:
    DB_URI has unsupported scheme: "invalid"

Only 'bolt' and 'https' schemes are supported by grafq.
Use bolt for neo4j, and https for AWS Neptune.
"#
    );
}

#[test]
fn fails_if_not_provided_with_neo4j_auth() {
    // GIVEN
    // WHEN
    let error = get_db_client(
        present("bolt://127.0.0.1:7687"),
        EnvLookup::NotPresent,
        EnvLookup::NotPresent,
        EnvLookup::NotPresent,
    )
    .expect_err("result should've been an error");
    let error = AppError::QueryCmdError(QueryCmdError::CouldntBuildDbClient(error));

    // THEN
    assert_eq!(
        report(&error),
        r#"Error: couldn't build db client

Caused by:
    environment variable "NEO4J_USER" is missing

The environment variables NEO4J_USER, NEO4J_PASSWORD, and NEO4J_DB need to be set when connecting
to a neo4j database (which was determined by the bolt scheme in DB_URI).
"#
    );
}

//----------//
//  OTHERS  //
//----------//

#[test]
fn https_address_chooses_the_managed_service() {
    let client = get_db_client(
        present("https://abc.xyz.us-east-1.neptune.amazonaws.com:8182"),
        EnvLookup::NotUnicode,
        EnvLookup::NotPresent,
        EnvLookup::NotPresent,
    )
    .expect("should be chosen");
    assert!(matches!(client, DbClient::Neptune(_)));
    assert_eq!(
        client.db_uri(),
        "https://abc.xyz.us-east-1.neptune.amazonaws.com:8182"
    );
}

#[test]
fn bolt_address_chooses_the_database_with_its_credentials() {
    let client = get_db_client(
        present("bolt://127.0.0.1:7687"),
        present("neo4j"),
        present("secret"),
        present("graph"),
    )
    .expect("should be chosen");
    assert_eq!(client.db_uri(), "bolt://127.0.0.1:7687");
    match client {
        DbClient::Neo4j(config) => {
            assert_eq!(config.db_uri, "bolt://127.0.0.1:7687");
            assert_eq!(config.user, "neo4j");
            assert_eq!(config.password, "secret");
            assert_eq!(config.database_name, "graph");
        }
        other => panic!("unexpected: {:?}", other),
    }
}

#[test]
fn bolt_address_names_the_first_variable_that_is_missing() {
    let error = get_db_client(
        present("bolt://127.0.0.1:7687"),
        present("neo4j"),
        EnvLookup::NotPresent,
        EnvLookup::NotPresent,
    )
    .expect_err("should fail");
    assert_eq!(
        error.to_string(),
        "environment variable \"NEO4J_PASSWORD\" is missing"
    );

    let error = get_db_client(
        present("bolt://127.0.0.1:7687"),
        present("neo4j"),
        present("secret"),
        EnvLookup::NotUnicode,
    )
    .expect_err("should fail");
    assert_eq!(
        error.to_string(),
        "environment variable \"NEO4J_DB\" is not valid unicode"
    );
    assert!(follow_up_db_client_error(&error).is_none());
}

#[test]
fn address_without_a_scheme_is_invalid() {
    let error = get_db_client(
        present("127.0.0.1:7687"),
        EnvLookup::NotPresent,
        EnvLookup::NotPresent,
        EnvLookup::NotPresent,
    )
    .expect_err("should fail");
    assert_eq!(error.to_string(), "DB_URI is invalid: \"127.0.0.1:7687\"");
    assert_eq!(
        follow_up_db_client_error(&error),
        Some(
            "The URI needs to be in the form <scheme>://<host>:<port>. For example:
- bolt://127.0.0.1:7687 (for neo4j)
- https://abc.xyz.us-east-1.neptune.amazonaws.com:8182 (for AWS Neptune)"
                .to_string()
        )
    );
}

#[test]
fn address_that_is_no_text_is_reported() {
    let error = get_db_client(
        EnvLookup::NotUnicode,
        EnvLookup::NotPresent,
        EnvLookup::NotPresent,
        EnvLookup::NotPresent,
    )
    .expect_err("should fail");
    assert_eq!(
        error.to_string(),
        "environment variable \"DB_URI\" is not valid unicode"
    );
    assert!(matches!(
        error,
        DbClientError::CouldntReadEnvVar(EnvVarError::EnvVarIsInvalid(_))
    ));
}

#[test]
fn scheme_is_what_stands_before_the_first_separator() {
    let error = get_db_client(
        present("HTTPS://abc"),
        EnvLookup::NotPresent,
        EnvLookup::NotPresent,
        EnvLookup::NotPresent,
    )
    .expect_err("should fail");
    assert_eq!(error.to_string(), "DB_URI has unsupported scheme: \"HTTPS\"");

    let error = get_db_client(
        present("://abc"),
        EnvLookup::NotPresent,
        EnvLookup::NotPresent,
        EnvLookup::NotPresent,
    )
    .expect_err("should fail");
    assert_eq!(error.to_string(), "DB_URI has unsupported scheme: \"\"");
}

#[test]
fn app_error_describes_itself() {
    let error = AppError::XdgError("no home".to_string());
    assert_eq!(
        error.to_string(),
        "couldn't determine your home directory: no home"
    );
    assert!(error.is_unexpected());
    assert!(error.follow_up().is_none());

    let error = AppError::Uncategorised("something else".to_string());
    assert_eq!(error.to_string(), "something else");
    assert!(!error.is_unexpected());

    let error = AppError::ConsoleCmdError(ConsoleCmdError::Uncategorised("x: y".to_string()));
    assert_eq!(error.to_string(), "x: y");
    assert!(error.follow_up().is_none());

    let error = AppError::ConsoleCmdError(ConsoleCmdError::CouldntBuildDbClient(
        DbClientError::DBUriNotSet,
    ));
    assert_eq!(error.to_string(), "couldn't build db client: DB_URI is not set");
    assert!(error
        .follow_up()
        .expect("should have a follow-up")
        .starts_with("grafq requires the environment variable DB_URI to be set."));
    assert!(!error.is_unexpected());

    let error = AppError::QueryCmdError(QueryCmdError::Uncategorised("z".to_string()));
    assert_eq!(error.to_string(), "z");
    assert_eq!(
        DbClientError::Uncategorised("u".to_string()).to_string(),
        "u"
    );
}

#[test]
fn console_without_paging_starts_without_a_pager() {
    let config = ConsoleConfig {
        page_results: false,
        write_results: false,
        results_directory: ".grafq".to_string(),
        history_file_path: "h".to_string(),
        results_format: OutputFormat::Json,
    };
    let mut console = handle_console_cmd(
        "bolt://127.0.0.1:7687".to_string(),
        config,
        present("grafq-no-such-pager-binary"),
    )
    .expect("should be made");
    assert!(!console.has_pager());
    assert!(!console.is_finished());
    let step = console.step(ConsoleEvent::Started);
    assert!(matches!(step.request, Request::ReadLine));
    assert!(step.messages[1].text.contains(" connected to: bolt://127.0.0.1:7687\n"));
}

#[test]
fn console_with_paging_needs_its_pager_at_once() {
    let config = ConsoleConfig {
        page_results: true,
        write_results: false,
        results_directory: ".grafq".to_string(),
        history_file_path: "h".to_string(),
        results_format: OutputFormat::Json,
    };
    let error = handle_console_cmd(
        "bolt://127.0.0.1:7687".to_string(),
        config,
        present("grafq-no-such-pager-binary -x"),
    )
    .expect_err("should fail");
    assert!(error
        .to_string()
        .starts_with("couldn't find pager executable \"grafq-no-such-pager-binary\": "));
}
