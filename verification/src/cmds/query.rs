//! The one-off query command: where the results of one query go, and what
//! a benchmark reports.

use crate::domain::benchmark::BenchmarkNumRuns;
use crate::domain::output::OutputFormat;
use crate::domain::result::{JsonValue, QueryResults};
use crate::repository::client::DbClientError;
use crate::service::output::{spec_contents, spec_file_name, write_results, Timestamp};
use crate::text::{concat2, concat3, decimal, str_eq, to_decimal, trim, trimmed};
use crate::view::results::{psql_table, render_rows, table_records};
use vstd::prelude::*;
use vstd::string::*;

verus! {

/// What the command does with its query.
#[derive(Debug)]
pub enum QueryBehaviour {
    /// Run it again and again, and report how long it takes.
    Benchmark { num_runs: BenchmarkNumRuns, warmup_runs: u16 },
    /// Run it once, and show or keep what it gives.
    Normal {
        page_results: bool,
        write_results: bool,
        results_directory: String,
        results_format: OutputFormat,
    },
}

/// Why the query command failed.
#[derive(Debug)]
pub enum QueryCmdError {
    /// No database could be chosen.
    CouldntBuildDbClient(DbClientError),
    /// Anything else.
    Uncategorised(String),
}

impl QueryCmdError {
    /// The text that describes the error.
    pub open spec fn spec_message(self) -> Seq<char> {
        match self {
            QueryCmdError::CouldntBuildDbClient(e) => "couldn't build db client: "@
                + e.spec_message(),
            QueryCmdError::Uncategorised(text) => text@,
        }
    }

    /// The text that describes the error.
    pub fn to_string(&self) -> (r: String)
        ensures
            r@ == self.spec_message(),
    {
        match self {
            QueryCmdError::CouldntBuildDbClient(e) => {
                let cause = e.to_string();
                concat2("couldn't build db client: ", cause.as_str())
            },
            QueryCmdError::Uncategorised(text) => text.clone(),
        }
    }
}

/// The query as the command shows it before it runs.
pub open spec fn spec_query_notice(query: Seq<char>) -> Seq<char> {
    "---\n"@ + query + "\n---\n"@
}

/// The query as the command shows it before it runs, between two rules.
pub fn query_notice(query: &str) -> (r: String)
    ensures
        r@ == spec_query_notice(query@),
{
    concat3("---\n", query, "\n---\n")
}

/// Where the results of a one-off query go.
#[derive(Debug)]
pub enum QueryOutput {
    /// There are none: say so.
    NoResults,
    /// To the screen, as this table.
    Table(String),
    /// To a file in the user's directory, and then to the pager where
    /// `page` is set.
    File { directory: String, file_name: String, contents: Vec<u8>, page: bool },
    /// To a file in a new directory that goes away afterwards, and then
    /// to the pager.
    TemporaryFile { file_name: String, contents: Vec<u8> },
}

/// Where the results of a one-off query go, over the characters and bytes
/// that are held.
pub ghost enum QueryOutputView {
    NoResults,
    Table(Seq<char>),
    File { directory: Seq<char>, file_name: Seq<char>, contents: Seq<u8>, page: bool },
    TemporaryFile { file_name: Seq<char>, contents: Seq<u8> },
}

impl View for QueryOutput {
    type V = QueryOutputView;

    open spec fn view(&self) -> QueryOutputView {
        match *self {
            QueryOutput::NoResults => QueryOutputView::NoResults,
            QueryOutput::Table(table) => QueryOutputView::Table(table@),
            QueryOutput::File { directory, file_name, contents, page } => QueryOutputView::File {
                directory: directory@,
                file_name: file_name@,
                contents: contents@,
                page,
            },
            QueryOutput::TemporaryFile { file_name, contents } => QueryOutputView::TemporaryFile {
                file_name: file_name@,
                contents: contents@,
            },
        }
    }
}

/// Where rows go: to a file in the user's directory where results are
/// written; else to a file for the pager where results are paged; else to
/// the screen. Where the rows cannot be written, the reason is given with
/// what was being done.
pub open spec fn spec_route_rows(
    rows: Seq<JsonValue>,
    page_results: bool,
    write_results: bool,
    results_directory: Seq<char>,
    results_format: OutputFormat,
    now: Timestamp,
) -> Result<QueryOutputView, Seq<char>> {
    if write_results {
        match spec_contents(rows, results_format) {
            Ok(contents) => Ok(
                QueryOutputView::File {
                    directory: results_directory,
                    file_name: spec_file_name(now, results_format),
                    contents,
                    page: page_results,
                },
            ),
            Err(reason) => Err("couldn't write results: "@ + reason),
        }
    } else if page_results {
        match spec_contents(rows, results_format) {
            Ok(contents) => Ok(
                QueryOutputView::TemporaryFile {
                    file_name: spec_file_name(now, results_format),
                    contents,
                },
            ),
            Err(reason) => Err("couldn't write results to temporary location: "@ + reason),
        }
    } else {
        Ok(QueryOutputView::Table(psql_table(table_records(rows))))
    }
}

/// Where the results of a one-off query go.
pub open spec fn spec_route_results(
    results: QueryResults,
    page_results: bool,
    write_results: bool,
    results_directory: Seq<char>,
    results_format: OutputFormat,
    now: Timestamp,
) -> Result<QueryOutputView, Seq<char>> {
    match results {
        QueryResults::Empty => Ok(QueryOutputView::NoResults),
        QueryResults::NonEmpty(rows) => spec_route_rows(
            rows@,
            page_results,
            write_results,
            results_directory,
            results_format,
            now,
        ),
    }
}

/// Decides where the results of a one-off query go. `now` is the time
/// that a file is named after.
pub fn route_results(
    results: &QueryResults,
    page_results: bool,
    write_results_to_file: bool,
    results_directory: &str,
    results_format: &OutputFormat,
    now: &Timestamp,
) -> (r: Result<QueryOutput, QueryCmdError>)
    ensures
        match r {
            Ok(output) => spec_route_results(
                *results,
                page_results,
                write_results_to_file,
                results_directory@,
                *results_format,
                *now,
            ) == Ok::<QueryOutputView, Seq<char>>(output@),
            Err(e) => e is Uncategorised && spec_route_results(
                *results,
                page_results,
                write_results_to_file,
                results_directory@,
                *results_format,
                *now,
            ) == Err::<QueryOutputView, Seq<char>>(e->Uncategorised_0@),
        },
{
    let rows = match results {
        QueryResults::Empty => {
            return Ok(QueryOutput::NoResults);
        },
        QueryResults::NonEmpty(results) => results.results(),
    };
    if write_results_to_file {
        match write_results(rows, results_directory, results_format, now) {
            Ok(file) => Ok(
                QueryOutput::File {
                    directory: file.directory,
                    file_name: file.file_name,
                    contents: file.contents,
                    page: page_results,
                },
            ),
            Err(e) => {
                let reason = e.to_string();
                Err(
                    QueryCmdError::Uncategorised(
                        concat2("couldn't write results: ", reason.as_str()),
                    ),
                )
            },
        }
    } else if page_results {
        match write_results(rows, results_directory, results_format, now) {
            Ok(file) => Ok(
                QueryOutput::TemporaryFile { file_name: file.file_name, contents: file.contents },
            ),
            Err(e) => {
                let reason = e.to_string();
                Err(
                    QueryCmdError::Uncategorised(
                        concat2("couldn't write results to temporary location: ", reason.as_str()),
                    ),
                )
            },
        }
    } else {
        Ok(QueryOutput::Table(render_rows(rows)))
    }
}

/// The sum of `times`.
pub open spec fn spec_sum(times: Seq<u64>) -> nat
    decreases times.len(),
{
    if times.len() == 0 {
        0
    } else {
        spec_sum(times.drop_last()) + times.last() as nat
    }
}

/// What a benchmark reports of its runs, in milliseconds.
#[derive(Debug, Clone, Copy, PartialEq, Eq, Structural)]
pub struct BenchmarkStats {
    /// The shortest run.
    pub min: u64,
    /// The longest run.
    pub max: u64,
    /// The sum of the runs, divided by their number and rounded down.
    pub mean: u64,
}

/// Whether `stats` are the shortest, the longest and the mean of `times`.
pub open spec fn is_statistics_of(stats: BenchmarkStats, times: Seq<u64>) -> bool {
    &&& times.len() > 0
    &&& times.contains(stats.min)
    &&& times.contains(stats.max)
    &&& forall|i: int| 0 <= i < times.len() ==> stats.min <= #[trigger] times[i] <= stats.max
    &&& stats.mean == spec_sum(times) / times.len()
}

proof fn lemma_sum_bound(times: Seq<u64>, low: u64, high: u64)
    requires
        forall|i: int| 0 <= i < times.len() ==> low <= #[trigger] times[i] <= high,
    ensures
        low * times.len() <= spec_sum(times) <= high * times.len(),
    decreases times.len(),
{
    if times.len() > 0 {
        lemma_sum_bound(times.drop_last(), low, high);
        assert(low * times.len() == low * (times.len() - 1) + low) by (nonlinear_arith);
        assert(high * times.len() == high * (times.len() - 1) + high) by (nonlinear_arith);
        assert(times.drop_last().len() == times.len() - 1);
    } else {
        assert(low * times.len() == 0) by (nonlinear_arith)
            requires
                times.len() == 0,
        ;
        assert(high * times.len() == 0) by (nonlinear_arith)
            requires
                times.len() == 0,
        ;
    }
}

/// The shortest, the longest and the mean of the times that the runs of a
/// benchmark took; nothing where there was no run.
pub fn statistics(times: &Vec<u64>) -> (r: Option<BenchmarkStats>)
    ensures
        match r {
            Some(stats) => is_statistics_of(stats, times@),
            None => times@.len() == 0,
        },
{
    if times.len() == 0 {
        return None;
    }
    let mut min: u64 = times[0];
    let mut max: u64 = times[0];
    let mut sum: u128 = 0;
    let mut i: usize = 0;
    while i < times.len()
        invariant
            i <= times.len(),
            times@.len() > 0,
            times@.contains(min),
            times@.contains(max),
            forall|j: int| 0 <= j < i ==> min <= #[trigger] times@[j] <= max,
            sum == spec_sum(times@.take(i as int)),
            sum <= i * 0xFFFF_FFFF_FFFF_FFFF,
        decreases times.len() - i,
    {
        let t: u64 = times[i];
        if t < min {
            min = t;
        }
        if t > max {
            max = t;
        }
        proof {
            assert(times@.take(i as int + 1).drop_last() =~= times@.take(i as int));
            assert((i + 1) * 0xFFFF_FFFF_FFFF_FFFF == i * 0xFFFF_FFFF_FFFF_FFFF
                + 0xFFFF_FFFF_FFFF_FFFF) by (nonlinear_arith);
            assert(i * 0xFFFF_FFFF_FFFF_FFFF <= 0xFFFF_FFFF_FFFF_FFFF * 0xFFFF_FFFF_FFFF_FFFF)
                by (nonlinear_arith)
                requires
                    i <= 0xFFFF_FFFF_FFFF_FFFF,
            ;
        }
        sum = sum + t as u128;
        i += 1;
    }
    proof {
        assert(times@.take(times@.len() as int) =~= times@);
        lemma_sum_bound(times@, min, max);
        assert(spec_sum(times@) / times@.len() <= max) by (nonlinear_arith)
            requires
                spec_sum(times@) <= max * times@.len(),
                times@.len() > 0,
        ;
    }
    let mean: u128 = sum / (times.len() as u128);
    Some(BenchmarkStats { min, max, mean: mean as u64 })
}

/// The label of the run with the given number: the number with three
/// digits at least.
pub open spec fn spec_run_label(number: nat) -> Seq<char> {
    "run "@ + (if number < 10 {
        "00"@ + decimal(number)
    } else if number < 100 {
        "0"@ + decimal(number)
    } else {
        decimal(number)
    }) + ":"@
}

/// The label under which the time of a run is shown.
pub fn run_label(number: u32) -> (r: String)
    ensures
        r@ == spec_run_label(number as nat),
{
    let digits = to_decimal(number as u128);
    let padded = if number < 10 {
        concat2("00", digits.as_str())
    } else if number < 100 {
        concat2("0", digits.as_str())
    } else {
        digits
    };
    concat3("run ", padded.as_str(), ":")
}

/// What a benchmark says before its warmup runs.
pub open spec fn spec_warmup_header(runs: u16) -> Seq<char> {
    "Warming up ("@ + decimal(runs as nat) + " runs) ..."@
}

/// What a benchmark says before the runs that count.
pub open spec fn spec_benchmark_header(runs: BenchmarkNumRuns) -> Seq<char> {
    "Benchmarking ("@ + decimal(runs.spec_value() as nat) + " runs) ..."@
}

/// A time as the benchmark shows it: the milliseconds and `ms`.
pub open spec fn spec_millis_text(millis: u64) -> Seq<char> {
    decimal(millis as nat) + "ms"@
}

/// What a benchmark says before its warmup runs, where there are any.
pub fn warmup_header(runs: u16) -> (r: Option<String>)
    ensures
        match r {
            Some(text) => runs > 0 && text@ == spec_warmup_header(runs),
            None => runs == 0,
        },
{
    if runs == 0 {
        return None;
    }
    let number = to_decimal(runs as u128);
    Some(concat3("Warming up (", number.as_str(), " runs) ..."))
}

/// What a benchmark says before the runs that count.
pub fn benchmark_header(runs: &BenchmarkNumRuns) -> (r: String)
    ensures
        r@ == spec_benchmark_header(*runs),
{
    let number = runs.to_string();
    concat3("Benchmarking (", number.as_str(), " runs) ...")
}

/// A time as the benchmark shows it.
pub fn millis_text(millis: u64) -> (r: String)
    ensures
        r@ == spec_millis_text(millis),
{
    let number = to_decimal(millis as u128);
    concat2(number.as_str(), "ms")
}

/// Whether the query is to be read from the input: it is where a hyphen
/// stands in its place.
pub fn reads_stdin(query: &str) -> (r: bool)
    ensures
        r == (query@ == "-"@),
{
    str_eq(query, "-")
}

/// The query that the command runs: what the input holds, without the
/// white space around it, where a hyphen stands for the query and the
/// input was read; else the query as it was given.
pub fn resolve_query(query: String, stdin: Option<String>) -> (r: String)
    ensures
        r@ == (if query@ == "-"@ && stdin is Some {
            trimmed(stdin->Some_0@)
        } else {
            query@
        }),
{
    if str_eq(query.as_str(), "-") {
        match stdin {
            Some(text) => String::from_str(trim(text.as_str())),
            None => query,
        }
    } else {
        query
    }
}

/// What a benchmark does next.
#[derive(Debug, Clone, Copy, PartialEq, Eq, Structural)]
pub enum BenchStep {
    /// The warmup run of this number, counted from one.
    Warmup(u32),
    /// The run of this number that counts, counted from one.
    Run(u32),
    /// Nothing more: the run before this, which was the run of this number
    /// among all runs, failed.
    Failed(u32),
    /// Nothing more: every run is done.
    Done,
}

/// What a benchmark does next after `done` runs, the last of which failed
/// or not: it stops at the first run that fails; else it makes the warmup
/// runs, then the runs that count, and is done after the last of them.
pub open spec fn spec_next_run(done: u32, last_failed: bool, warmup_runs: u16, num_runs: u16)
    -> BenchStep {
    if last_failed && done > 0 {
        BenchStep::Failed(done)
    } else if done < warmup_runs {
        BenchStep::Warmup((done + 1) as u32)
    } else if done - warmup_runs < num_runs {
        BenchStep::Run((done - warmup_runs + 1) as u32)
    } else {
        BenchStep::Done
    }
}

/// Tells what a benchmark does next. `done` is the number of runs made so
/// far, warmup runs included, and `last_failed` says whether the last of
/// them failed.
pub fn next_run(done: u32, last_failed: bool, warmup_runs: u16, num_runs: &BenchmarkNumRuns) -> (r:
    BenchStep)
    ensures
        r == spec_next_run(done, last_failed, warmup_runs, num_runs.spec_value()),
{
    let warmups: u32 = warmup_runs as u32;
    if last_failed && done > 0 {
        BenchStep::Failed(done)
    } else if done < warmups {
        BenchStep::Warmup(done + 1)
    } else if done - warmups < num_runs.value() as u32 {
        BenchStep::Run(done - warmups + 1)
    } else {
        BenchStep::Done
    }
}

/// What is said of the run that failed, which was the run of the number
/// `failed` among all runs: whether it was a warmup run or one that
/// counts, and its number among those.
pub open spec fn spec_run_failure(failed: u32, warmup_runs: u16) -> Seq<char> {
    if failed <= warmup_runs {
        "couldn't get results for warmup run #"@ + decimal(failed as nat)
    } else {
        "couldn't execute query for benchmark run #"@ + decimal((failed - warmup_runs) as nat)
    }
}

/// What is said of the run that failed.
pub fn run_failure(failed: u32, warmup_runs: u16) -> (r: String)
    ensures
        r@ == spec_run_failure(failed, warmup_runs),
{
    if failed <= warmup_runs as u32 {
        let number = to_decimal(failed as u128);
        concat2("couldn't get results for warmup run #", number.as_str())
    } else {
        let number = to_decimal((failed - warmup_runs as u32) as u128);
        concat2("couldn't execute query for benchmark run #", number.as_str())
    }
}

} // verus!
