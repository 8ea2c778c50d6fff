use grafq::cmds::query::{
    next_run, query_notice, reads_stdin, resolve_query, route_results, run_failure, BenchStep,
    QueryCmdError, QueryOutput,
};
use grafq::domain::benchmark::BenchmarkNumRuns;
use grafq::domain::output::OutputFormat;
use grafq::domain::result::{JsonValue, QueryResults};
use grafq::repository::client::DbClientError;
use grafq::service::output::Timestamp;

fn now() -> Timestamp {
    Timestamp {
        month: 1,
        day: 2,
        hour: 3,
        minute: 4,
        second: 5,
    }
}

fn rows() -> QueryResults {
    QueryResults::new(vec![JsonValue::Object(vec![(
        "id".to_string(),
        JsonValue::Number("1".to_string()),
    )])])
}

#[test]
fn query_notice_shows_the_query_between_rules() {
    assert_eq!(
        query_notice("MATCH (n) RETURN n"),
        "---\nMATCH (n) RETURN n\n---\n"
    );
}

#[test]
fn empty_results_go_nowhere() {
    let output = route_results(
        &QueryResults::new(vec![]),
        true,
        true,
        "out",
        &OutputFormat::Csv,
        &now(),
    )
    .expect("should be decided");
    assert!(matches!(output, QueryOutput::NoResults));
}

#[test]
fn results_go_to_the_screen_by_default() {
    let output = route_results(&rows(), false, false, "out", &OutputFormat::Csv, &now())
        .expect("should be decided");
    match output {
        QueryOutput::Table(table) => assert_eq!(table, " id \n----\n 1  "),
        other => panic!("unexpected: {:?}", other),
    }
}

#[test]
fn results_go_to_a_file_when_they_are_written() {
    for page in [false, true] {
        let output = route_results(&rows(), page, true, "out", &OutputFormat::Csv, &now())
            .expect("should be decided");
        match output {
            QueryOutput::File {
                directory,
                file_name,
                contents,
                page: paged,
            } => {
                assert_eq!(directory, "out");
                assert_eq!(file_name, "01-02-03-04-05.csv");
                assert_eq!(contents, b"id\n1\n");
                assert_eq!(paged, page);
            }
            other => panic!("unexpected: {:?}", other),
        }
    }
}

#[test]
fn results_go_to_a_temporary_file_when_they_are_only_paged() {
    let output = route_results(&rows(), true, false, "out", &OutputFormat::Json, &now())
        .expect("should be decided");
    match output {
        QueryOutput::TemporaryFile {
            file_name,
            contents,
        } => {
            assert_eq!(file_name, "01-02-03-04-05.json");
            assert_eq!(
                String::from_utf8(contents).expect("text"),
                "[\n  {\n    \"id\": 1\n  }\n]"
            );
        }
        other => panic!("unexpected: {:?}", other),
    }
}

#[test]
fn rows_that_cannot_be_written_fail_the_command() {
    let results = QueryResults::new(vec![JsonValue::Bool(true)]);
    let error = route_results(&results, false, true, "out", &OutputFormat::Csv, &now())
        .expect_err("should fail");
    assert_eq!(
        error.to_string(),
        "couldn't write results: expected results to be an array of objects"
    );

    let error = route_results(&results, true, false, "out", &OutputFormat::Csv, &now())
        .expect_err("should fail");
    assert_eq!(
        error.to_string(),
        "couldn't write results to temporary location: expected results to be an array of objects"
    );
}

#[test]
fn query_command_error_describes_itself() {
    let error = QueryCmdError::CouldntBuildDbClient(DbClientError::DBUriNotSet);
    assert_eq!(
        error.to_string(),
        "couldn't build db client: DB_URI is not set"
    );
    assert_eq!(
        QueryCmdError::Uncategorised("x".to_string()).to_string(),
        "x"
    );
}

#[test]
fn query_is_read_from_the_input_for_a_hyphen() {
    assert!(reads_stdin("-"));
    assert!(!reads_stdin(" -"));
    assert!(!reads_stdin("MATCH (n) RETURN n"));
    assert_eq!(
        resolve_query("-".to_string(), Some("\n  MATCH (n) RETURN n \n".to_string())),
        "MATCH (n) RETURN n"
    );
    assert_eq!(resolve_query("-".to_string(), Some("  ".to_string())), "");
    assert_eq!(resolve_query("-".to_string(), None), "-");
}

#[test]
fn query_is_taken_as_given_otherwise() {
    assert_eq!(
        resolve_query(" MATCH (n) RETURN n ".to_string(), None),
        " MATCH (n) RETURN n "
    );
    assert_eq!(
        resolve_query("RETURN 1".to_string(), Some("RETURN 2".to_string())),
        "RETURN 1"
    );
}

#[test]
fn benchmark_makes_its_warmup_runs_and_then_the_runs_that_count() {
    let runs = BenchmarkNumRuns::from_str("3").expect("should be read");
    let steps: Vec<BenchStep> = (0..7).map(|done| next_run(done, false, 2, &runs)).collect();
    assert_eq!(
        steps,
        vec![
            BenchStep::Warmup(1),
            BenchStep::Warmup(2),
            BenchStep::Run(1),
            BenchStep::Run(2),
            BenchStep::Run(3),
            BenchStep::Done,
            BenchStep::Done,
        ]
    );
    assert_eq!(next_run(0, false, 0, &runs), BenchStep::Run(1));
    assert_eq!(next_run(3, false, 0, &runs), BenchStep::Done);
}

#[test]
fn benchmark_stops_at_the_first_run_that_fails() {
    let runs = BenchmarkNumRuns::from_str("3").expect("should be read");
    assert_eq!(next_run(1, true, 2, &runs), BenchStep::Failed(1));
    assert_eq!(next_run(4, true, 2, &runs), BenchStep::Failed(4));
    assert_eq!(next_run(0, true, 2, &runs), BenchStep::Warmup(1));
    assert_eq!(
        run_failure(1, 2),
        "couldn't get results for warmup run #1"
    );
    assert_eq!(
        run_failure(2, 2),
        "couldn't get results for warmup run #2"
    );
    assert_eq!(
        run_failure(4, 2),
        "couldn't execute query for benchmark run #2"
    );
    assert_eq!(
        run_failure(1, 0),
        "couldn't execute query for benchmark run #1"
    );
}
