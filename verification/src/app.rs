//! What the program does for a command line.

use crate::cli::{Args, GraphQCommand};
use crate::cmds::query::QueryBehaviour;
use crate::error::AppError;
use crate::text::concat2;
use crate::view::console::ConsoleConfig;
use vstd::prelude::*;
use vstd::string::*;

verus! {

/// What a benchmark is told where its results are to be written as well.
pub const BENCHMARK_AND_WRITE: &'static str = "cannot benchmark and write results at the same time";

/// What the program is to do.
#[derive(Debug)]
pub enum Invocation {
    /// Show this text and do nothing else.
    Debug(String),
    /// Open the console with this configuration.
    Console(ConsoleConfig),
    /// Run this query in this way, and show it first where `print_query`
    /// is set.
    Query { query: String, behaviour: QueryBehaviour, print_query: bool },
}

/// What the program is to do for a command line that does not ask for the
/// summary: open the console as configured, with its history in the file
/// given; or run a query, as a benchmark or once. A benchmark whose
/// results are to be written is refused.
pub open spec fn spec_invocation(command: GraphQCommand, history_file_path: String) -> Result<
    Invocation,
    AppError,
> {
    match command {
        GraphQCommand::Console {
            page_results,
            write_results,
            results_directory,
            results_format,
        } => Ok(
            Invocation::Console(
                ConsoleConfig {
                    page_results,
                    write_results,
                    results_directory,
                    history_file_path,
                    results_format,
                },
            ),
        ),
        GraphQCommand::Query {
            page_results,
            query,
            benchmark,
            bench_num_runs,
            bench_num_warmup_runs,
            print_query,
            write_results,
            results_directory,
            results_format,
        } => if benchmark && write_results {
            Err(AppError::InvalidCLIUsage(BENCHMARK_AND_WRITE))
        } else if benchmark {
            Ok(
                Invocation::Query {
                    query,
                    behaviour: QueryBehaviour::Benchmark {
                        num_runs: bench_num_runs,
                        warmup_runs: bench_num_warmup_runs,
                    },
                    print_query,
                },
            )
        } else {
            Ok(
                Invocation::Query {
                    query,
                    behaviour: QueryBehaviour::Normal {
                        page_results,
                        write_results,
                        results_directory,
                        results_format,
                    },
                    print_query,
                },
            )
        },
    }
}

/// Decides what the program is to do for a command line. With `debug`
/// set, that is to show a summary of the command line, whatever it asks
/// for. `history_file_path` is where the console keeps its history.
pub fn run(args: Args, history_file_path: String) -> (r: Result<Invocation, AppError>)
    ensures
        if args.debug {
            r is Ok && r->Ok_0 is Debug && r->Ok_0->Debug_0@ == "DEBUG INFO\n"@
                + args.spec_to_string()
        } else {
            r == spec_invocation(args.command, history_file_path)
        },
{
    if args.debug {
        let summary = args.to_string();
        return Ok(Invocation::Debug(concat2("DEBUG INFO\n", summary.as_str())));
    }
    match args.command {
        GraphQCommand::Console {
            page_results,
            write_results,
            results_directory,
            results_format,
        } => Ok(
            Invocation::Console(
                ConsoleConfig {
                    page_results,
                    write_results,
                    results_directory,
                    history_file_path,
                    results_format,
                },
            ),
        ),
        GraphQCommand::Query {
            page_results,
            query,
            benchmark,
            bench_num_runs,
            bench_num_warmup_runs,
            print_query,
            write_results,
            results_directory,
            results_format,
        } => {
            if benchmark && write_results {
                return Err(AppError::InvalidCLIUsage(BENCHMARK_AND_WRITE));
            }
            let behaviour = if benchmark {
                QueryBehaviour::Benchmark {
                    num_runs: bench_num_runs,
                    warmup_runs: bench_num_warmup_runs,
                }
            } else {
                QueryBehaviour::Normal {
                    page_results,
                    write_results,
                    results_directory,
                    results_format,
                }
            };
            Ok(Invocation::Query { query, behaviour, print_query })
        },
    }
}

} // verus!
