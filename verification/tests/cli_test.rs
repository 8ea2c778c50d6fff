use grafq::app::{run, Invocation, BENCHMARK_AND_WRITE};
use grafq::cli::{Args, GraphQCommand};
use grafq::cmds::query::QueryBehaviour;
use grafq::domain::benchmark::BenchmarkNumRuns;
use grafq::domain::output::OutputFormat;
use grafq::error::AppError;

const QUERY: &str = "MATCH (c: Candidate) RETURN c.id LIMIT 5";
const HISTORY: &str = "/data/grafq/history.txt";

fn console_args(write_results: bool, results_directory: &str, debug: bool) -> Args {
    Args {
        command: GraphQCommand::Console {
            page_results: false,
            write_results,
            results_directory: results_directory.to_string(),
            results_format: OutputFormat::Json,
        },
        debug,
    }
}

fn query_args(query: &str) -> Args {
    Args {
        command: GraphQCommand::Query {
            page_results: false,
            query: query.to_string(),
            benchmark: false,
            bench_num_runs: BenchmarkNumRuns::from_str("5").expect("should be read"),
            bench_num_warmup_runs: 3,
            print_query: false,
            write_results: false,
            results_directory: ".grafq".to_string(),
            results_format: OutputFormat::Json,
        },
        debug: true,
    }
}

fn debug_output(args: Args) -> String {
    match run(args, HISTORY.to_string()) {
        Ok(Invocation::Debug(text)) => text,
        other => panic!("unexpected: {:?}", other),
    }
}

//-------------//
//  SUCCESSES  //
//-------------//

#[test]
fn console_test_debug_flag_works_for_defaults() {
    // GIVEN
    let args = console_args(false, ".grafq", true);

    // WHEN
    let output = debug_output(args);

    // THEN
    assert_eq!(
        output,
        "DEBUG INFO

command:                    console
display results via pager:  false
write results:              false
results directory:          .grafq
results format:             json
"
    );
}

#[test]
fn debug_flag_works_for_overridden_flags() {
    // GIVEN
    let args = console_args(true, "path/to/results/dir", true);

    // WHEN
    let output = debug_output(args);

    // THEN
    assert_eq!(
        output,
        "DEBUG INFO

command:                    console
display results via pager:  false
write results:              true
results directory:          path/to/results/dir
results format:             json
"
    );
}

#[test]
fn query_test_debug_flag_works_for_defaults() {
    // GIVEN
    let args = query_args("-");

    // WHEN
    let output = debug_output(args);

    // THEN
    assert_eq!(
        output,
        "DEBUG INFO

command:                    query
display results via pager:  false
benchmark:                  false
print query:                false
write results:              false

query:                      -
"
    );
}

#[test]
fn debug_flag_works_with_overridden_flags() {
    // GIVEN
    let args = Args {
        command: GraphQCommand::Query {
            page_results: false,
            query: QUERY.to_string(),
            benchmark: true,
            bench_num_runs: BenchmarkNumRuns::from_str("10").expect("should be read"),
            bench_num_warmup_runs: 5,
            print_query: true,
            write_results: false,
            results_directory: ".grafq".to_string(),
            results_format: OutputFormat::Json,
        },
        debug: true,
    };

    // WHEN
    let output = debug_output(args);

    // THEN
    assert_eq!(
        output,
        "DEBUG INFO

command:                    query
display results via pager:  false
benchmark:                  true
benchmark num runs:         10
benchmark num warmup runs:  5
print query:                true
write results:              false

query:
---
MATCH (c: Candidate) RETURN c.id LIMIT 5
---
"
    );
}

#[test]
fn debug_flag_works_for_write_results_flags() {
    // GIVEN
    let args = Args {
        command: GraphQCommand::Query {
            page_results: false,
            query: QUERY.to_string(),
            benchmark: false,
            bench_num_runs: BenchmarkNumRuns::from_str("5").expect("should be read"),
            bench_num_warmup_runs: 3,
            print_query: false,
            write_results: true,
            results_directory: "path/to/results/dir".to_string(),
            results_format: OutputFormat::Json,
        },
        debug: true,
    };

    // WHEN
    let output = debug_output(args);

    // THEN
    assert_eq!(
        output,
        "DEBUG INFO

command:                    query
display results via pager:  false
benchmark:                  false
print query:                false
write results:              true
results directory:          path/to/results/dir
results format:             json

query:
---
MATCH (c: Candidate) RETURN c.id LIMIT 5
---
"
    );
}

//-------------//
//  FAILURES   //
//-------------//

#[test]
fn fails_if_both_benchmark_and_write_flags_are_provided() {
    // GIVEN
    let args = Args {
        command: GraphQCommand::Query {
            page_results: false,
            query: QUERY.to_string(),
            benchmark: true,
            bench_num_runs: BenchmarkNumRuns::from_str("5").expect("should be read"),
            bench_num_warmup_runs: 3,
            print_query: false,
            write_results: true,
            results_directory: ".grafq".to_string(),
            results_format: OutputFormat::Json,
        },
        debug: false,
    };

    // WHEN
    let error = run(args, HISTORY.to_string()).expect_err("result should've been an error");

    // THEN
    assert_eq!(
        format!("Error: {}", error.to_string()),
        "Error: cannot benchmark and write results at the same time"
    );
    assert!(matches!(error, AppError::InvalidCLIUsage(BENCHMARK_AND_WRITE)));
    assert!(error.follow_up().is_none());
    assert!(!error.is_unexpected());
}

#[test]
fn output_format_refuses_an_unknown_name() {
    // GIVEN
    // WHEN
    let error = OutputFormat::from_str("unknown").expect_err("result should've been an error");

    // THEN
    assert_eq!(error, "invalid format provided; allowed values: [csv, json]");
}

//----------//
//  OTHERS  //
//----------//

#[test]
fn console_command_opens_the_console_as_configured() {
    let args = console_args(true, "out", false);
    match run(args, HISTORY.to_string()).expect("should be Ok") {
        Invocation::Console(config) => {
            assert!(!config.page_results);
            assert!(config.write_results);
            assert_eq!(config.results_directory, "out");
            assert_eq!(config.history_file_path, HISTORY);
            assert_eq!(config.results_format, OutputFormat::Json);
        }
        other => panic!("unexpected: {:?}", other),
    }
}

#[test]
fn query_command_runs_once_or_as_a_benchmark() {
    let mut args = query_args(QUERY);
    args.debug = false;
    match run(args, HISTORY.to_string()).expect("should be Ok") {
        Invocation::Query {
            query,
            behaviour,
            print_query,
        } => {
            assert_eq!(query, QUERY);
            assert!(!print_query);
            match behaviour {
                QueryBehaviour::Normal {
                    page_results,
                    write_results,
                    results_directory,
                    results_format,
                } => {
                    assert!(!page_results);
                    assert!(!write_results);
                    assert_eq!(results_directory, ".grafq");
                    assert_eq!(results_format, OutputFormat::Json);
                }
                other => panic!("unexpected: {:?}", other),
            }
        }
        other => panic!("unexpected: {:?}", other),
    }

    let args = Args {
        command: GraphQCommand::Query {
            page_results: true,
            query: QUERY.to_string(),
            benchmark: true,
            bench_num_runs: BenchmarkNumRuns::from_str("7").expect("should be read"),
            bench_num_warmup_runs: 2,
            print_query: true,
            write_results: false,
            results_directory: ".grafq".to_string(),
            results_format: OutputFormat::Csv,
        },
        debug: false,
    };
    match run(args, HISTORY.to_string()).expect("should be Ok") {
        Invocation::Query {
            behaviour,
            print_query,
            ..
        } => {
            assert!(print_query);
            match behaviour {
                QueryBehaviour::Benchmark {
                    num_runs,
                    warmup_runs,
                } => {
                    assert_eq!(num_runs.value(), 7);
                    assert_eq!(warmup_runs, 2);
                }
                other => panic!("unexpected: {:?}", other),
            }
        }
        other => panic!("unexpected: {:?}", other),
    }
}

#[test]
fn debug_wins_over_an_invalid_combination() {
    let args = Args {
        command: GraphQCommand::Query {
            page_results: false,
            query: QUERY.to_string(),
            benchmark: true,
            bench_num_runs: BenchmarkNumRuns::from_str("5").expect("should be read"),
            bench_num_warmup_runs: 0,
            print_query: false,
            write_results: true,
            results_directory: "d".to_string(),
            results_format: OutputFormat::Csv,
        },
        debug: true,
    };
    let output = debug_output(args);
    assert!(output.starts_with("DEBUG INFO\n\ncommand:                    query\n"));
    assert!(output.contains("\nbenchmark num warmup runs:  0\n"));
    assert!(output.contains("\nresults format:             csv\n"));
}
