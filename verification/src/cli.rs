//! What the command line asks for, once it has been read.

use crate::domain::benchmark::BenchmarkNumRuns;
use crate::domain::output::OutputFormat;
use crate::text::{decimal, str_eq, to_decimal};
use vstd::prelude::*;
use vstd::string::*;

verus! {

/// What the command line asks for.
#[derive(Debug)]
pub struct Args {
    /// The command.
    pub command: GraphQCommand,
    /// Whether to show what was asked for and do nothing else.
    pub debug: bool,
}

/// The command that the program is to carry out.
#[derive(Debug)]
pub enum GraphQCommand {
    /// Open the console.
    Console {
        /// Show results through a pager.
        page_results: bool,
        /// Write results to files.
        write_results: bool,
        /// The directory to write results to.
        results_directory: String,
        /// The format to write results in.
        results_format: OutputFormat,
    },
    /// Run a one-off query.
    Query {
        /// Show results through a pager.
        page_results: bool,
        /// The query, or `-` where it is to be read from the input.
        query: String,
        /// Whether to benchmark the query.
        benchmark: bool,
        /// The number of benchmark runs.
        bench_num_runs: BenchmarkNumRuns,
        /// The number of runs before the benchmark proper.
        bench_num_warmup_runs: u16,
        /// Show the query before it runs.
        print_query: bool,
        /// Write results to a file.
        write_results: bool,
        /// The directory to write results to.
        results_directory: String,
        /// The format to write results in.
        results_format: OutputFormat,
    },
}

/// `true` or `false`.
pub open spec fn spec_bool_text(b: bool) -> Seq<char> {
    if b {
        "true"@
    } else {
        "false"@
    }
}

/// The part of the summary that shows the benchmark's numbers, which is
/// there only for a benchmark.
pub open spec fn spec_benchmark_info(benchmark: bool, runs: BenchmarkNumRuns, warmup_runs: u16)
    -> Seq<char> {
    if benchmark {
        "\nbenchmark num runs:         "@ + decimal(runs.spec_value() as nat)
            + "\nbenchmark num warmup runs:  "@ + decimal(warmup_runs as nat)
    } else {
        Seq::empty()
    }
}

/// The part of the summary that shows the query: a hyphen for one that is
/// read from the input, else the query between two rules.
pub open spec fn spec_query_info(query: Seq<char>) -> Seq<char> {
    if query == "-"@ {
        "\nquery:                      -\n"@
    } else {
        "\nquery:\n---\n"@ + query + "\n---\n"@
    }
}

/// The part of the summary that shows where results are written, and in
/// what format; both only where they are written at all.
pub open spec fn spec_output_info(
    write_results: bool,
    results_directory: Seq<char>,
    results_format: OutputFormat,
) -> Seq<char> {
    if write_results {
        "\nwrite results:              true\nresults directory:          "@ + results_directory
            + "\nresults format:             "@ + results_format.spec_extension() + "\n"@
    } else {
        "\nwrite results:              false\n"@
    }
}

fn bool_text(b: bool) -> (r: &'static str)
    ensures
        r@ == spec_bool_text(b),
{
    if b {
        "true"
    } else {
        "false"
    }
}

impl Args {
    /// The summary of what the command line asks for.
    pub open spec fn spec_to_string(self) -> Seq<char> {
        match self.command {
            GraphQCommand::Console {
                page_results,
                write_results,
                results_directory,
                results_format,
            } => {
                "\ncommand:                    console\ndisplay results via pager:  "@
                    + spec_bool_text(page_results) + "\nwrite results:              "@
                    + spec_bool_text(write_results) + "\nresults directory:          "@
                    + results_directory@ + "\nresults format:             "@
                    + results_format.spec_extension() + "\n"@
            },
            GraphQCommand::Query {
                page_results,
                query,
                benchmark,
                bench_num_runs,
                bench_num_warmup_runs,
                print_query,
                write_results,
                results_directory,
                results_format,
            } => {
                "\ncommand:                    query\ndisplay results via pager:  "@
                    + spec_bool_text(page_results) + "\nbenchmark:                  "@
                    + spec_bool_text(benchmark) + spec_benchmark_info(
                    benchmark,
                    bench_num_runs,
                    bench_num_warmup_runs,
                ) + "\nprint query:                "@ + spec_bool_text(print_query)
                    + spec_output_info(write_results, results_directory@, results_format)
                    + spec_query_info(query@)
            },
        }
    }

    /// A summary of what the command line asks for, one setting to a line.
    pub fn to_string(&self) -> (r: String)
        ensures
            r@ == self.spec_to_string(),
    {
        match &self.command {
            GraphQCommand::Console {
                page_results,
                write_results,
                results_directory,
                results_format,
            } => {
                let mut r = String::from_str(
                    "\ncommand:                    console\ndisplay results via pager:  ",
                );
                r.append(bool_text(*page_results));
                r.append("\nwrite results:              ");
                r.append(bool_text(*write_results));
                r.append("\nresults directory:          ");
                r.append(results_directory.as_str());
                r.append("\nresults format:             ");
                r.append(results_format.extension());
                r.append("\n");
                r
            },
            GraphQCommand::Query {
                page_results,
                query,
                benchmark,
                bench_num_runs,
                bench_num_warmup_runs,
                print_query,
                write_results,
                results_directory,
                results_format,
            } => {
                let mut benchmark_info = String::new();
                if *benchmark {
                    benchmark_info.append("\nbenchmark num runs:         ");
                    benchmark_info.append(bench_num_runs.to_string().as_str());
                    benchmark_info.append("\nbenchmark num warmup runs:  ");
                    benchmark_info.append(to_decimal(*bench_num_warmup_runs as u128).as_str());
                    proof {
                        assert(benchmark_info@ =~= spec_benchmark_info(
                            *benchmark,
                            *bench_num_runs,
                            *bench_num_warmup_runs,
                        ));
                    }
                }
                let mut query_info = String::new();
                if str_eq(query.as_str(), "-") {
                    query_info.append("\nquery:                      -\n");
                } else {
                    query_info.append("\nquery:\n---\n");
                    query_info.append(query.as_str());
                    query_info.append("\n---\n");
                }
                proof {
                    assert(query_info@ =~= spec_query_info(query@));
                }
                let mut output_info = String::new();
                if *write_results {
                    output_info.append(
                        "\nwrite results:              true\nresults directory:          ",
                    );
                    output_info.append(results_directory.as_str());
                    output_info.append("\nresults format:             ");
                    output_info.append(results_format.extension());
                    output_info.append("\n");
                } else {
                    output_info.append("\nwrite results:              false\n");
                }
                proof {
                    assert(output_info@ =~= spec_output_info(
                        *write_results,
                        results_directory@,
                        *results_format,
                    ));
                }
                let mut r = String::from_str(
                    "\ncommand:                    query\ndisplay results via pager:  ",
                );
                r.append(bool_text(*page_results));
                r.append("\nbenchmark:                  ");
                r.append(bool_text(*benchmark));
                r.append(benchmark_info.as_str());
                r.append("\nprint query:                ");
                r.append(bool_text(*print_query));
                r.append(output_info.as_str());
                r.append(query_info.as_str());
                r
            },
        }
    }
}

} // verus!
