//! The console: a session's state, and what it does with each thing that
//! happens.
//!
//! The console itself reads no line, runs no query and writes no file. It
//! is told what happened (a [`ConsoleEvent`]) and answers with what is to be
//! shown and what is to be done next (a [`Step`]). Whoever drives it does
//! what the step asks for and comes back with the outcome. What the console
//! answers is fixed by [`spec_step`].

use crate::config::{CTRL_C_QUIT_THRESHOLD_MILLIS, DEFAULT_RESULTS_DIR};
use crate::domain::output::{spec_from_str, OutputFormat, INVALID_FORMAT};
use crate::domain::pager::{Pager, PagerError};
use crate::domain::result::{JsonValue, QueryResults};
use crate::service::output::{
    spec_contents, spec_file_name, write_results, Timestamp, WriteFailure,
};
use crate::text::{concat2, concat3, decimal, to_decimal, trim, trimmed, views};
use crate::view::input::{
    classify, query_from_file, spec_classify, spec_query_from_file, Input, InputView,
    QueryInputError,
};
use crate::view::results::{psql_table, render_rows, table_records};
use vstd::prelude::*;
use vstd::string::*;

verus! {

/// The name of the program, drawn large.
pub const BANNER: &'static str = "
                  __
   __ _ _ __ __ _ / _| __ _
  / _` | '__/ _` | |_ / _` |
 | (_| | | | (_| |  _| (_| |
  \\__, |_|  \\__,_|_|  \\__, |
  |___/                  |_|
";

/// The commands of the console, as the help lists them.
pub const COMMANDS: &'static str = " commands
   help / :h                               show help
   clear                                   clear screen
   quit / exit / bye / :q                  quit
   page <on/off>                           turn paging results on or off
   write <on/off>                          turn writing results on or off
   format <csv/json>                       set the format of written results
   dir <PATH> / dir reset                  set the directory for written results
   @<PATH>                                 run the query that a file holds";

/// The keys of the console, as the help lists them.
pub const KEYMAPS: &'static str = " keymaps
   <up> / <down>                           go through the history
   <tab>                                   complete a file name after @
   ctrl+c                                  cancel a running query
   ctrl+c, twice                           quit
   ctrl+d                                  quit";

/// What the user prefers for one session.
#[derive(Debug)]
pub struct ConsoleConfig {
    /// Whether results are shown through the pager.
    pub page_results: bool,
    /// Whether results are written to a file.
    pub write_results: bool,
    /// The directory that results are written to.
    pub results_directory: String,
    /// The file that keeps the history. No command changes it.
    pub history_file_path: String,
    /// The format in which results are written.
    pub results_format: OutputFormat,
}

/// A session's configuration, over the characters of its paths.
pub ghost struct ConfigView {
    pub page_results: bool,
    pub write_results: bool,
    pub results_directory: Seq<char>,
    pub history_file_path: Seq<char>,
    pub results_format: OutputFormat,
}

impl View for ConsoleConfig {
    type V = ConfigView;

    open spec fn view(&self) -> ConfigView {
        ConfigView {
            page_results: self.page_results,
            write_results: self.write_results,
            results_directory: self.results_directory@,
            history_file_path: self.history_file_path@,
            results_format: self.results_format,
        }
    }
}

/// How a message is meant, which decides how it is shown.
#[derive(Debug, Clone, Copy, PartialEq, Eq, Structural)]
pub enum MessageKind {
    /// Output, shown as it is.
    Plain,
    /// A confirmation.
    Info,
    /// A report of something that went wrong.
    Error,
    /// A hint on what to do.
    Hint,
    /// How long a query took.
    Time,
    /// The part of the help that names the database.
    HelpConnection,
    /// The part of the help that shows the configuration.
    HelpConfig,
    /// The part of the help that lists the commands.
    HelpCommands,
    /// The part of the help that lists the keys.
    HelpKeys,
}

/// A line or a block of text for the user.
#[derive(Debug)]
pub struct Message {
    pub kind: MessageKind,
    pub text: String,
}

/// A message, over the characters of its text.
pub ghost struct MessageView {
    pub kind: MessageKind,
    pub text: Seq<char>,
}

impl View for Message {
    type V = MessageView;

    open spec fn view(&self) -> MessageView {
        MessageView { kind: self.kind, text: self.text@ }
    }
}

/// What is to be done next for the console.
#[derive(Debug)]
pub enum Request {
    /// Show the prompt and read a line.
    ReadLine,
    /// Clear the screen.
    ClearScreen,
    /// Get the session's pager.
    AcquirePager,
    /// Read the file at `path`.
    ReadQueryFile { path: String },
    /// Run `query`, unless the user interrupts the wait.
    Execute { query: String },
    /// Write `contents` to the file `file_name` in `directory`, which is
    /// made if it is not there.
    WriteFile { directory: String, file_name: String, contents: Vec<u8> },
    /// Write `contents` to the file `file_name` in a new directory that
    /// goes away when the results have been shown.
    WriteTemporaryFile { file_name: String, contents: Vec<u8> },
    /// Start `program` with `args` and then `path` as its arguments, and
    /// wait until it ends.
    Page { path: String, program: String, args: Vec<String> },
    /// Save the history and end the session, with a failure to report
    /// where there is one.
    Exit { failure: Option<String> },
    /// Nothing new: what was asked for before still stands.
    Pending,
}

/// A request, over the characters and bytes that it holds.
pub ghost enum RequestView {
    ReadLine,
    ClearScreen,
    AcquirePager,
    ReadQueryFile { path: Seq<char> },
    Execute { query: Seq<char> },
    WriteFile { directory: Seq<char>, file_name: Seq<char>, contents: Seq<u8> },
    WriteTemporaryFile { file_name: Seq<char>, contents: Seq<u8> },
    Page { path: Seq<char>, program: Seq<char>, args: Seq<Seq<char>> },
    Exit { failure: Option<Seq<char>> },
    Pending,
}

impl View for Request {
    type V = RequestView;

    open spec fn view(&self) -> RequestView {
        match *self {
            Request::ReadLine => RequestView::ReadLine,
            Request::ClearScreen => RequestView::ClearScreen,
            Request::AcquirePager => RequestView::AcquirePager,
            Request::ReadQueryFile { path } => RequestView::ReadQueryFile { path: path@ },
            Request::Execute { query } => RequestView::Execute { query: query@ },
            Request::WriteFile { directory, file_name, contents } => RequestView::WriteFile {
                directory: directory@,
                file_name: file_name@,
                contents: contents@,
            },
            Request::WriteTemporaryFile { file_name, contents } => {
                RequestView::WriteTemporaryFile { file_name: file_name@, contents: contents@ }
            },
            Request::Page { path, program, args } => RequestView::Page {
                path: path@,
                program: program@,
                args: views(args@),
            },
            Request::Exit { failure } => RequestView::Exit {
                failure: match failure {
                    Some(text) => Some(text@),
                    None => None,
                },
            },
            Request::Pending => RequestView::Pending,
        }
    }
}

/// The console's answer to an event.
#[derive(Debug)]
pub struct Step {
    /// What to show, in this order.
    pub messages: Vec<Message>,
    /// The line to add to the history, where there is one.
    pub history_entry: Option<String>,
    /// What to do next.
    pub request: Request,
}

/// A step, over the characters and bytes that it holds.
pub ghost struct StepView {
    pub messages: Seq<MessageView>,
    pub history_entry: Option<Seq<char>>,
    pub request: RequestView,
}

/// The messages of a list, over the characters of their texts.
pub open spec fn message_views(messages: Seq<Message>) -> Seq<MessageView> {
    Seq::new(messages.len(), |i: int| messages[i]@)
}

impl View for Step {
    type V = StepView;

    open spec fn view(&self) -> StepView {
        StepView {
            messages: message_views(self.messages@),
            history_entry: match self.history_entry {
                Some(line) => Some(line@),
                None => None,
            },
            request: self.request@,
        }
    }
}

/// Something that happened, which the console is told of.
#[derive(Debug)]
pub enum ConsoleEvent {
    /// The session begins.
    Started,
    /// The user entered a line.
    Line(String),
    /// The user pressed the interrupt key; `at_millis` is the time on a
    /// clock that never goes back.
    Interrupted { at_millis: u64 },
    /// The input has ended.
    EndOfInput,
    /// No line could be read, for the reason given.
    ReadFailed(String),
    /// The screen was cleared, or could not be.
    ScreenCleared(bool),
    /// The session's pager was asked for.
    PagerAcquired(Result<Pager, PagerError>),
    /// The query file was read, or could not be, for the reason given.
    FileRead(Result<String, String>),
    /// The query came back, after `elapsed_millis`, at the time `now`.
    QueryFinished { outcome: Result<QueryResults, String>, elapsed_millis: u128, now: Timestamp },
    /// The results were written to the file at this path, or could not be.
    FileWritten(Result<String, WriteFailure>),
    /// The pager has ended, or failed for the reason given.
    Paged(Result<(), String>),
}

/// Where a session stands.
#[derive(Debug)]
pub enum Phase {
    /// The session has not begun.
    Starting,
    /// The console waits for a line.
    AwaitingInput,
    /// The console waits for the screen to be cleared.
    ClearingScreen,
    /// The console waits for the pager that `page on` asked for.
    AcquiringPager,
    /// The console waits for the file that the line `line` named.
    ReadingQueryFile { line: String, path: String },
    /// A query is running.
    Executing,
    /// The console waits for the results to be written to the user's
    /// directory.
    WritingResults,
    /// The console waits for the results to be written for the pager.
    WritingTemporary,
    /// The pager is running.
    Paging,
    /// The session has ended.
    Exited,
}

/// Where a session stands, over the characters that it holds.
pub ghost enum PhaseView {
    Starting,
    AwaitingInput,
    ClearingScreen,
    AcquiringPager,
    ReadingQueryFile { line: Seq<char>, path: Seq<char> },
    Executing,
    WritingResults,
    WritingTemporary,
    Paging,
    Exited,
}

impl View for Phase {
    type V = PhaseView;

    open spec fn view(&self) -> PhaseView {
        match *self {
            Phase::Starting => PhaseView::Starting,
            Phase::AwaitingInput => PhaseView::AwaitingInput,
            Phase::ClearingScreen => PhaseView::ClearingScreen,
            Phase::AcquiringPager => PhaseView::AcquiringPager,
            Phase::ReadingQueryFile { line, path } => PhaseView::ReadingQueryFile {
                line: line@,
                path: path@,
            },
            Phase::Executing => PhaseView::Executing,
            Phase::WritingResults => PhaseView::WritingResults,
            Phase::WritingTemporary => PhaseView::WritingTemporary,
            Phase::Paging => PhaseView::Paging,
            Phase::Exited => PhaseView::Exited,
        }
    }
}

/// The state of a session.
#[derive(Debug)]
pub struct Console {
    db_uri: String,
    config: ConsoleConfig,
    pager: Option<Pager>,
    last_ctrl_c: Option<u64>,
    history: Vec<String>,
    phase: Phase,
}

/// The state of a session, over the characters that it holds.
pub ghost struct ConsoleView {
    /// The address of the database, for the help.
    pub db_uri: Seq<char>,
    /// The configuration.
    pub config: ConfigView,
    /// The pager, once the session has one.
    pub pager: Option<Pager>,
    /// When the user last pressed the interrupt key at the prompt, if no
    /// line came since.
    pub last_ctrl_c: Option<u64>,
    /// The lines that were taken as queries, oldest first.
    pub history: Seq<Seq<char>>,
    /// Where the session stands.
    pub phase: PhaseView,
}

impl View for Console {
    type V = ConsoleView;

    closed spec fn view(&self) -> ConsoleView {
        ConsoleView {
            db_uri: self.db_uri@,
            config: self.config@,
            pager: self.pager,
            last_ctrl_c: self.last_ctrl_c,
            history: views(self.history@),
            phase: self.phase@,
        }
    }
}

/// `ON` or `OFF`.
pub open spec fn spec_switch_text(on: bool) -> Seq<char> {
    if on {
        "ON"@
    } else {
        "OFF"@
    }
}

/// The part of the help that shows the configuration.
pub open spec fn spec_config_help(config: ConfigView) -> Seq<char> {
    " config\n   page results                            "@ + spec_switch_text(
        config.page_results,
    ) + "\n   write results to filesystem             "@ + spec_switch_text(config.write_results)
        + "\n   results format                          "@
        + config.results_format.spec_extension()
        + "\n   results directory                       "@ + config.results_directory
}

/// The help: the database that the session talks to, the configuration,
/// the commands and the keys.
pub open spec fn spec_help(db_uri: Seq<char>, config: ConfigView) -> Seq<char> {
    " connected to: "@ + db_uri + "\n\n"@ + spec_config_help(config) + "\n\n"@ + COMMANDS@
        + "\n"@ + KEYMAPS@
}

/// The parts of the help, shown one under the other, make the help.
pub proof fn lemma_help_parts_make_the_help(db_uri: Seq<char>, config: ConfigView)
    ensures
        ({
            let parts = spec_help_messages(db_uri, config);
            parts[0].text + "\n"@ + parts[1].text + "\n"@ + parts[2].text + "\n"@
                + parts[3].text == spec_help(db_uri, config)
        }),
{
    let parts = spec_help_messages(db_uri, config);
    reveal_strlit("\n");
    reveal_strlit("\n\n");
    assert("\n"@ + "\n"@ =~= "\n\n"@);
    assert(parts[0].text + "\n"@ + parts[1].text + "\n"@ + parts[2].text + "\n"@
        + parts[3].text =~= " connected to: "@ + db_uri + ("\n"@ + "\n"@) + spec_config_help(
        config,
    ) + ("\n"@ + "\n"@) + COMMANDS@ + "\n"@ + KEYMAPS@);
}

/// A message of the given kind.
pub open spec fn message(kind: MessageKind, text: Seq<char>) -> MessageView {
    MessageView { kind, text }
}

/// The help as the console shows it, part by part, each part a message of
/// its own kind. Shown one under the other, the parts make the help.
pub open spec fn spec_help_messages(db_uri: Seq<char>, config: ConfigView) -> Seq<MessageView> {
    seq![
        message(MessageKind::HelpConnection, " connected to: "@ + db_uri + "\n"@),
        message(MessageKind::HelpConfig, spec_config_help(config) + "\n"@),
        message(MessageKind::HelpCommands, COMMANDS@),
        message(MessageKind::HelpKeys, KEYMAPS@),
    ]
}

/// The console shows `messages` and waits for a line.
pub open spec fn prompt(state: ConsoleView, messages: Seq<MessageView>) -> (ConsoleView, StepView) {
    (
        ConsoleView { phase: PhaseView::AwaitingInput, ..state },
        StepView { messages, history_entry: None, request: RequestView::ReadLine },
    )
}

/// The console shows `messages`, asks for `request` and waits in `phase`
/// for what comes of it.
pub open spec fn wait(
    state: ConsoleView,
    phase: PhaseView,
    messages: Seq<MessageView>,
    request: RequestView,
) -> (ConsoleView, StepView) {
    (ConsoleView { phase, ..state }, StepView { messages, history_entry: None, request })
}

/// The session ends.
pub open spec fn exit(state: ConsoleView, failure: Option<Seq<char>>) -> (ConsoleView, StepView) {
    (
        ConsoleView { phase: PhaseView::Exited, ..state },
        StepView {
            messages: Seq::empty(),
            history_entry: None,
            request: RequestView::Exit { failure },
        },
    )
}

/// The console takes no notice.
pub open spec fn ignore(state: ConsoleView) -> (ConsoleView, StepView) {
    (
        state,
        StepView {
            messages: Seq::empty(),
            history_entry: None,
            request: RequestView::Pending,
        },
    )
}

/// The configuration after a line that asks for `input`, in a session that
/// has a pager or has none. A command changes the one field that it is
/// about, and only where its argument is one that it takes; `page on`
/// without a pager changes nothing by itself.
pub open spec fn config_after(config: ConfigView, input: InputView, has_pager: bool) -> ConfigView {
    match input {
        InputView::PageOn => if has_pager {
            ConfigView { page_results: true, ..config }
        } else {
            config
        },
        InputView::PageOff => ConfigView { page_results: false, ..config },
        InputView::Format(arg) => match spec_from_str(arg) {
            Some(format) => ConfigView { results_format: format, ..config },
            None => config,
        },
        InputView::DirReset => ConfigView { results_directory: DEFAULT_RESULTS_DIR@, ..config },
        InputView::Dir(arg) => ConfigView { results_directory: arg, ..config },
        InputView::WriteOn => ConfigView { write_results: true, ..config },
        InputView::WriteOff => ConfigView { write_results: false, ..config },
        _ => config,
    }
}

/// What the console says to a line that asks for `input` and is settled at
/// once: nothing, a confirmation, a usage note, or the help.
pub open spec fn reply(state: ConsoleView, input: InputView) -> Seq<MessageView> {
    match input {
        InputView::Help => spec_help_messages(state.db_uri, state.config),
        InputView::PageOn => if state.pager is Some && !state.config.page_results {
            seq![message(MessageKind::Info, "paging results turned ON"@)]
        } else {
            Seq::empty()
        },
        InputView::PageOff => seq![message(MessageKind::Info, "paging results turned OFF"@)],
        InputView::PageUsage => seq![message(MessageKind::Error, "Usage: page on/off"@)],
        InputView::Format(arg) => match spec_from_str(arg) {
            Some(_) => seq![message(MessageKind::Info, "results format set to: "@ + arg)],
            None => seq![message(MessageKind::Error, INVALID_FORMAT@)],
        },
        InputView::FormatUsage => seq![message(MessageKind::Error, "Usage: format <csv/json>"@)],
        InputView::DirReset => seq![
            message(
                MessageKind::Info,
                "results directory changed to grafq's default: "@ + DEFAULT_RESULTS_DIR@,
            ),
        ],
        InputView::Dir(arg) => seq![
            message(MessageKind::Info, "results directory changed to: "@ + arg),
        ],
        InputView::DirUsage => seq![message(MessageKind::Error, "Usage: dir <PATH>"@)],
        InputView::WriteOn => seq![message(MessageKind::Info, "writing results turned ON"@)],
        InputView::WriteOff => seq![message(MessageKind::Info, "writing results turned OFF"@)],
        InputView::WriteUsage => seq![message(MessageKind::Error, "Usage: write on/off"@)],
        InputView::QueryFileMissingPath => seq![
            message(MessageKind::Error, "Error: "@ + QueryInputError::MissingPath.spec_chain()),
        ],
        _ => Seq::empty(),
    }
}

/// What the console does with a line at the prompt.
pub open spec fn spec_on_line(state: ConsoleView, line: Seq<char>) -> (ConsoleView, StepView) {
    let input = spec_classify(line);
    let state = ConsoleView { last_ctrl_c: None, ..state };
    match input {
        InputView::Exit => exit(state, None),
        InputView::Clear => wait(
            state,
            PhaseView::ClearingScreen,
            Seq::empty(),
            RequestView::ClearScreen,
        ),
        InputView::PageOn => if state.pager is None {
            wait(state, PhaseView::AcquiringPager, Seq::empty(), RequestView::AcquirePager)
        } else {
            prompt(
                ConsoleView { config: config_after(state.config, input, true), ..state },
                reply(state, input),
            )
        },
        InputView::QueryFile(path) => wait(
            state,
            PhaseView::ReadingQueryFile { line: trimmed(line), path },
            Seq::empty(),
            RequestView::ReadQueryFile { path },
        ),
        InputView::Query(query) => spec_submit(state, query, query),
        _ => prompt(
            ConsoleView {
                config: config_after(state.config, input, state.pager is Some),
                ..state
            },
            reply(state, input),
        ),
    }
}

/// The console takes `line` into the history and asks for `query` to be
/// run.
pub open spec fn spec_submit(state: ConsoleView, line: Seq<char>, query: Seq<char>) -> (
    ConsoleView,
    StepView,
) {
    (
        ConsoleView { history: state.history.push(line), phase: PhaseView::Executing, ..state },
        StepView {
            messages: Seq::empty(),
            history_entry: Some(line),
            request: RequestView::Execute { query },
        },
    )
}

/// Whether an interrupt at `at_millis` ends a session in which the last
/// interrupt at the prompt, with no line since, came at `last`: it does
/// where there was one and fewer milliseconds than the threshold have
/// passed since.
pub open spec fn interrupt_exits(last: Option<u64>, at_millis: u64) -> bool {
    match last {
        Some(t) => at_millis - t < CTRL_C_QUIT_THRESHOLD_MILLIS,
        None => false,
    }
}

/// What the console does with an interrupt at the prompt.
pub open spec fn spec_on_interrupt(state: ConsoleView, at_millis: u64) -> (ConsoleView, StepView) {
    if interrupt_exits(state.last_ctrl_c, at_millis) {
        exit(state, None)
    } else {
        prompt(
            ConsoleView { last_ctrl_c: Some(at_millis), ..state },
            seq![message(MessageKind::Hint, "press ctrl+c again to exit"@)],
        )
    }
}

/// What the console does once the file that a line named has been read:
/// it asks for the query that the file gives to be run, or says why the
/// file gives none.
pub open spec fn spec_on_file_read(
    state: ConsoleView,
    line: Seq<char>,
    path: Seq<char>,
    contents: Result<String, String>,
) -> (ConsoleView, StepView) {
    match spec_query_from_file(path, contents) {
        Ok(query) => spec_submit(state, line, query),
        Err(reason) => prompt(state, seq![message(MessageKind::Error, "Error: "@ + reason)]),
    }
}

/// The console asks for the pager to show the file at `path`, where the
/// session pages results and has a pager; else it waits for a line.
pub open spec fn spec_page(state: ConsoleView, path: Seq<char>, messages: Seq<MessageView>) -> (
    ConsoleView,
    StepView,
) {
    match state.pager {
        Some(pager) => if state.config.page_results {
            wait(
                state,
                PhaseView::Paging,
                messages,
                RequestView::Page {
                    path,
                    program: pager.inner().spec_binary(),
                    args: pager.inner().spec_args(),
                },
            )
        } else {
            prompt(state, messages)
        },
        None => prompt(state, messages),
    }
}

/// Where the rows of a result set go: to a file in the user's directory
/// where the session writes results; else to a file for the pager where it
/// pages results and has a pager; else to the screen, as a table.
pub open spec fn spec_route(state: ConsoleView, rows: Seq<JsonValue>, now: Timestamp) -> (
    ConsoleView,
    StepView,
) {
    let format = state.config.results_format;
    if state.config.write_results {
        match spec_contents(rows, format) {
            Ok(contents) => wait(
                state,
                PhaseView::WritingResults,
                Seq::empty(),
                RequestView::WriteFile {
                    directory: state.config.results_directory,
                    file_name: spec_file_name(now, format),
                    contents,
                },
            ),
            Err(reason) => prompt(
                state,
                seq![message(MessageKind::Error, "Error: couldn't write results: "@ + reason)],
            ),
        }
    } else if state.config.page_results && state.pager is Some {
        match spec_contents(rows, format) {
            Ok(contents) => wait(
                state,
                PhaseView::WritingTemporary,
                Seq::empty(),
                RequestView::WriteTemporaryFile { file_name: spec_file_name(now, format), contents },
            ),
            Err(reason) => prompt(
                state,
                seq![
                    message(
                        MessageKind::Error,
                        "Error: couldn't write results to temporary directory: "@ + reason,
                    ),
                ],
            ),
        }
    } else {
        prompt(
            state,
            seq![message(MessageKind::Plain, "\n"@ + psql_table(table_records(rows)) + "\n"@)],
        )
    }
}

/// What the console does with what a query gave, leaving aside the time
/// that it took.
pub open spec fn spec_on_outcome(
    state: ConsoleView,
    outcome: Result<QueryResults, String>,
    now: Timestamp,
) -> (ConsoleView, StepView) {
    match outcome {
        Ok(QueryResults::Empty) => prompt(
            state,
            seq![message(MessageKind::Plain, "\nNo results\n"@)],
        ),
        Ok(QueryResults::NonEmpty(results)) => spec_route(state, results@, now),
        Err(cause) => prompt(
            state,
            seq![message(MessageKind::Error, "Error: couldn't get results: "@ + cause@)],
        ),
    }
}

/// How the console reports the time that a query took.
pub open spec fn spec_time_message(elapsed_millis: u128) -> MessageView {
    message(MessageKind::Time, "took "@ + decimal(elapsed_millis as nat) + " ms"@)
}

/// What the console does when a query comes back: it reports the time,
/// then sends the results on their way.
pub open spec fn spec_on_query_finished(
    state: ConsoleView,
    outcome: Result<QueryResults, String>,
    elapsed_millis: u128,
    now: Timestamp,
) -> (ConsoleView, StepView) {
    let (next, step) = spec_on_outcome(state, outcome, now);
    (next, StepView { messages: seq![spec_time_message(elapsed_millis)] + step.messages, ..step })
}

/// What the console does with an event: the state that the session is in
/// afterwards, and the console's answer. An event that the console does
/// not wait for in its phase changes nothing.
pub open spec fn spec_step(state: ConsoleView, event: ConsoleEvent) -> (ConsoleView, StepView) {
    match (state.phase, event) {
        (PhaseView::Starting, ConsoleEvent::Started) => prompt(
            state,
            seq![message(MessageKind::Plain, BANNER@ + "\n"@)] + spec_help_messages(
                state.db_uri,
                state.config,
            ),
        ),
        (PhaseView::AwaitingInput, ConsoleEvent::Line(line)) => spec_on_line(state, line@),
        (PhaseView::AwaitingInput, ConsoleEvent::Interrupted { at_millis }) => spec_on_interrupt(
            state,
            at_millis,
        ),
        (PhaseView::AwaitingInput, ConsoleEvent::EndOfInput) => exit(state, None),
        (PhaseView::AwaitingInput, ConsoleEvent::ReadFailed(cause)) => exit(
            state,
            Some("couldn't read input: "@ + cause@),
        ),
        (PhaseView::ClearingScreen, ConsoleEvent::ScreenCleared(cleared)) => prompt(
            state,
            if cleared {
                Seq::empty()
            } else {
                seq![message(MessageKind::Error, "Error: couldn't clear screen"@)]
            },
        ),
        (PhaseView::AcquiringPager, ConsoleEvent::PagerAcquired(outcome)) => match outcome {
            Ok(pager) => prompt(
                ConsoleView {
                    pager: Some(pager),
                    config: ConfigView { page_results: true, ..state.config },
                    ..state
                },
                seq![message(MessageKind::Info, "paging results turned ON"@)],
            ),
            Err(e) => prompt(
                state,
                seq![
                    message(
                        MessageKind::Error,
                        "Error: couldn't turn on pager: "@ + e.spec_message(),
                    ),
                ],
            ),
        },
        (PhaseView::ReadingQueryFile { line, path }, ConsoleEvent::FileRead(contents)) => {
            spec_on_file_read(state, line, path, contents)
        },
        (PhaseView::Executing, ConsoleEvent::Interrupted { at_millis }) => prompt(
            state,
            seq![message(MessageKind::Hint, "\nquery cancelled"@)],
        ),
        (
            PhaseView::Executing,
            ConsoleEvent::QueryFinished { outcome, elapsed_millis, now },
        ) => spec_on_query_finished(state, outcome, elapsed_millis, now),
        (PhaseView::WritingResults, ConsoleEvent::FileWritten(outcome)) => match outcome {
            Ok(path) => spec_page(
                state,
                path@,
                seq![message(MessageKind::Info, "wrote results to "@ + path@)],
            ),
            Err(failure) => prompt(
                state,
                seq![
                    message(
                        MessageKind::Error,
                        "Error: couldn't write results: "@ + failure.spec_message(),
                    ),
                ],
            ),
        },
        (PhaseView::WritingTemporary, ConsoleEvent::FileWritten(outcome)) => match outcome {
            Ok(path) => spec_page(state, path@, Seq::empty()),
            Err(failure) => prompt(
                state,
                seq![
                    message(
                        MessageKind::Error,
                        "Error: couldn't write results to temporary directory: "@
                            + failure.spec_message(),
                    ),
                ],
            ),
        },
        (PhaseView::Paging, ConsoleEvent::Paged(outcome)) => match outcome {
            Ok(_) => prompt(state, Seq::empty()),
            Err(cause) => prompt(
                state,
                seq![
                    message(
                        MessageKind::Error,
                        "Error: couldn't display results via pager: "@ + cause@,
                    ),
                ],
            ),
        },
        _ => ignore(state),
    }
}

/// The state of a session after a list of events, one after the other.
pub open spec fn spec_run(state: ConsoleView, events: Seq<ConsoleEvent>) -> ConsoleView
    decreases events.len(),
{
    if events.len() == 0 {
        state
    } else {
        spec_step(spec_run(state, events.drop_last()), events.last()).0
    }
}

/// The console's answers to a list of events, one after the other.
pub open spec fn spec_answers(state: ConsoleView, events: Seq<ConsoleEvent>) -> Seq<StepView>
    decreases events.len(),
{
    if events.len() == 0 {
        Seq::empty()
    } else {
        spec_answers(state, events.drop_last()).push(
            spec_step(spec_run(state, events.drop_last()), events.last()).1,
        )
    }
}

/// The steps of a list, over the characters and bytes that they hold.
pub open spec fn step_views(steps: Seq<Step>) -> Seq<StepView> {
    Seq::new(steps.len(), |i: int| steps[i]@)
}

/// The name of the program, drawn large, with an empty line after it.
pub fn banner_text() -> (r: String)
    ensures
        r@ == BANNER@ + "\n"@,
{
    concat2(BANNER, "\n")
}

fn switch_text(on: bool) -> (r: &'static str)
    ensures
        r@ == spec_switch_text(on),
{
    if on {
        "ON"
    } else {
        "OFF"
    }
}

/// The part of the help that shows the configuration.
pub fn config_help_text(config: &ConsoleConfig) -> (r: String)
    ensures
        r@ == spec_config_help(config@),
{
    let mut summary = String::from_str(" config\n   page results                            ");
    summary.append(switch_text(config.page_results));
    summary.append("\n   write results to filesystem             ");
    summary.append(switch_text(config.write_results));
    summary.append("\n   results format                          ");
    summary.append(config.results_format.extension());
    summary.append("\n   results directory                       ");
    summary.append(config.results_directory.as_str());
    summary
}

/// The help for a session that talks to `db_uri` and is configured as
/// `config` says, as one text.
pub fn help_text(db_uri: &str, config: &ConsoleConfig) -> (r: String)
    ensures
        r@ == spec_help(db_uri@, config@),
{
    let summary = config_help_text(config);
    let mut help = concat3(" connected to: ", db_uri, "\n\n");
    help.append(summary.as_str());
    help.append("\n\n");
    help.append(COMMANDS);
    help.append("\n");
    help.append(KEYMAPS);
    help
}

/// The help for a session that talks to `db_uri` and is configured as
/// `config` says, part by part.
pub fn help_messages(db_uri: &str, config: &ConsoleConfig) -> (r: Vec<Message>)
    ensures
        message_views(r@) == spec_help_messages(db_uri@, config@),
{
    let summary = config_help_text(config);
    let mut r: Vec<Message> = Vec::new();
    r.push(
        Message {
            kind: MessageKind::HelpConnection,
            text: concat3(" connected to: ", db_uri, "\n"),
        },
    );
    r.push(Message { kind: MessageKind::HelpConfig, text: concat2(summary.as_str(), "\n") });
    r.push(Message { kind: MessageKind::HelpCommands, text: String::from_str(COMMANDS) });
    r.push(Message { kind: MessageKind::HelpKeys, text: String::from_str(KEYMAPS) });
    proof {
        assert(message_views(r@) =~= spec_help_messages(db_uri@, config@));
    }
    r
}

fn no_messages() -> (r: Vec<Message>)
    ensures
        message_views(r@) == Seq::<MessageView>::empty(),
{
    let r: Vec<Message> = Vec::new();
    proof {
        assert(message_views(r@) =~= Seq::<MessageView>::empty());
    }
    r
}

fn one_message(kind: MessageKind, text: String) -> (r: Vec<Message>)
    ensures
        message_views(r@) == seq![message(kind, text@)],
{
    let mut r: Vec<Message> = Vec::new();
    r.push(Message { kind, text });
    proof {
        assert(message_views(r@) =~= seq![message(kind, text@)]);
    }
    r
}

fn after_message(first: Message, mut rest: Vec<Message>) -> (r: Vec<Message>)
    ensures
        message_views(r@) == seq![first@] + message_views(rest@),
{
    let mut r: Vec<Message> = Vec::new();
    r.push(first);
    let ghost head = r@;
    let ghost tail = rest@;
    r.append(&mut rest);
    proof {
        assert(r@ == head + tail);
        assert(message_views(head + tail) =~= seq![first@] + message_views(tail));
    }
    r
}

fn say(kind: MessageKind, text: &str) -> (r: Vec<Message>)
    ensures
        message_views(r@) == seq![message(kind, text@)],
{
    one_message(kind, String::from_str(text))
}

fn step_of(messages: Vec<Message>, request: Request) -> (r: Step)
    ensures
        r@ == (StepView {
            messages: message_views(messages@),
            history_entry: None,
            request: request@,
        }),
{
    Step { messages, history_entry: None, request }
}

fn with_time(elapsed_millis: u128, step: Step) -> (r: Step)
    ensures
        r@ == (StepView {
            messages: seq![spec_time_message(elapsed_millis)] + step@.messages,
            ..step@
        }),
{
    let number = to_decimal(elapsed_millis);
    let time = Message { kind: MessageKind::Time, text: concat3("took ", number.as_str(), " ms") };
    let Step { messages, history_entry, request } = step;
    Step { messages: after_message(time, messages), history_entry, request }
}

impl Console {
    /// A session that has not begun: it talks to the database at `db_uri`,
    /// is configured as `config` says, and has the pager given, if any.
    pub fn new(db_uri: String, config: ConsoleConfig, pager: Option<Pager>) -> (r: Console)
        ensures
            r@ == (ConsoleView {
                db_uri: db_uri@,
                config: config@,
                pager,
                last_ctrl_c: None,
                history: Seq::empty(),
                phase: PhaseView::Starting,
            }),
    {
        let history: Vec<String> = Vec::new();
        proof {
            assert(views(history@) =~= Seq::<Seq<char>>::empty());
        }
        Console { db_uri, config, pager, last_ctrl_c: None, history, phase: Phase::Starting }
    }

    /// The configuration as it stands.
    pub fn config(&self) -> (r: &ConsoleConfig)
        ensures
            r@ == self@.config,
    {
        &self.config
    }

    /// Whether the session has a pager.
    pub fn has_pager(&self) -> (r: bool)
        ensures
            r == (self@.pager is Some),
    {
        self.pager.is_some()
    }

    /// The lines that were taken as queries, oldest first.
    pub fn history(&self) -> (r: &Vec<String>)
        ensures
            views(r@) == self@.history,
    {
        &self.history
    }

    /// Whether the session has ended.
    pub fn is_finished(&self) -> (r: bool)
        ensures
            r == (self@.phase is Exited),
    {
        match self.phase {
            Phase::Exited => true,
            _ => false,
        }
    }

    fn to_prompt(&mut self, messages: Vec<Message>) -> (r: Step)
        ensures
            (final(self)@, r@) == prompt(old(self)@, message_views(messages@)),
    {
        self.phase = Phase::AwaitingInput;
        step_of(messages, Request::ReadLine)
    }

    fn to_wait(&mut self, phase: Phase, messages: Vec<Message>, request: Request) -> (r: Step)
        ensures
            (final(self)@, r@) == wait(old(self)@, phase@, message_views(messages@), request@),
    {
        self.phase = phase;
        step_of(messages, request)
    }

    fn to_exit(&mut self, failure: Option<String>) -> (r: Step)
        ensures
            (final(self)@, r@) == exit(
                old(self)@,
                match failure {
                    Some(text) => Some(text@),
                    None => None,
                },
            ),
    {
        self.phase = Phase::Exited;
        step_of(no_messages(), Request::Exit { failure })
    }

    fn ignored(&self) -> (r: Step)
        ensures
            (self@, r@) == ignore(self@),
    {
        step_of(no_messages(), Request::Pending)
    }

    fn submit(&mut self, line: &str, query: &str) -> (r: Step)
        ensures
            (final(self)@, r@) == spec_submit(old(self)@, line@, query@),
    {
        self.history.push(String::from_str(line));
        self.phase = Phase::Executing;
        proof {
            assert(views(self.history@) =~= views(old(self).history@).push(line@));
        }
        Step {
            messages: no_messages(),
            history_entry: Some(String::from_str(line)),
            request: Request::Execute { query: String::from_str(query) },
        }
    }

    fn on_line(&mut self, line: &str) -> (r: Step)
        ensures
            (final(self)@, r@) == spec_on_line(old(self)@, line@),
    {
        self.last_ctrl_c = None;
        let input = classify(line);
        match input {
            Input::Empty => self.to_prompt(no_messages()),
            Input::Exit => self.to_exit(None),
            Input::Clear => self.to_wait(
                Phase::ClearingScreen,
                no_messages(),
                Request::ClearScreen,
            ),
            Input::Help => {
                let help = help_messages(self.db_uri.as_str(), &self.config);
                self.to_prompt(help)
            },
            Input::PageOn => {
                if self.pager.is_none() {
                    self.to_wait(Phase::AcquiringPager, no_messages(), Request::AcquirePager)
                } else if !self.config.page_results {
                    self.config.page_results = true;
                    self.to_prompt(say(MessageKind::Info, "paging results turned ON"))
                } else {
                    self.to_prompt(no_messages())
                }
            },
            Input::PageOff => {
                self.config.page_results = false;
                self.to_prompt(say(MessageKind::Info, "paging results turned OFF"))
            },
            Input::PageUsage => self.to_prompt(say(MessageKind::Error, "Usage: page on/off")),
            Input::Format(arg) => match OutputFormat::from_str(arg) {
                Ok(format) => {
                    self.config.results_format = format;
                    self.to_prompt(
                        one_message(MessageKind::Info, concat2("results format set to: ", arg)),
                    )
                },
                Err(reason) => self.to_prompt(say(MessageKind::Error, reason)),
            },
            Input::FormatUsage => self.to_prompt(
                say(MessageKind::Error, "Usage: format <csv/json>"),
            ),
            Input::DirReset => {
                self.config.results_directory = String::from_str(DEFAULT_RESULTS_DIR);
                self.to_prompt(
                    one_message(
                        MessageKind::Info,
                        concat2(
                            "results directory changed to grafq's default: ",
                            DEFAULT_RESULTS_DIR,
                        ),
                    ),
                )
            },
            Input::Dir(arg) => {
                self.config.results_directory = String::from_str(arg);
                self.to_prompt(
                    one_message(MessageKind::Info, concat2("results directory changed to: ", arg)),
                )
            },
            Input::DirUsage => self.to_prompt(say(MessageKind::Error, "Usage: dir <PATH>")),
            Input::WriteOn => {
                self.config.write_results = true;
                self.to_prompt(say(MessageKind::Info, "writing results turned ON"))
            },
            Input::WriteOff => {
                self.config.write_results = false;
                self.to_prompt(say(MessageKind::Info, "writing results turned OFF"))
            },
            Input::WriteUsage => self.to_prompt(say(MessageKind::Error, "Usage: write on/off")),
            Input::QueryFileMissingPath => {
                let reason = QueryInputError::MissingPath.chain();
                self.to_prompt(
                    one_message(MessageKind::Error, concat2("Error: ", reason.as_str())),
                )
            },
            Input::QueryFile(path) => self.to_wait(
                Phase::ReadingQueryFile {
                    line: String::from_str(trim(line)),
                    path: String::from_str(path),
                },
                no_messages(),
                Request::ReadQueryFile { path: String::from_str(path) },
            ),
            Input::Query(query) => self.submit(query, query),
        }
    }

    fn on_interrupt(&mut self, at_millis: u64) -> (r: Step)
        ensures
            (final(self)@, r@) == spec_on_interrupt(old(self)@, at_millis),
    {
        let exits = match self.last_ctrl_c {
            Some(t) => at_millis < t || at_millis - t < CTRL_C_QUIT_THRESHOLD_MILLIS,
            None => false,
        };
        if exits {
            self.to_exit(None)
        } else {
            self.last_ctrl_c = Some(at_millis);
            self.to_prompt(say(MessageKind::Hint, "press ctrl+c again to exit"))
        }
    }

    fn on_file_read(&mut self, line: &str, path: &str, contents: Result<String, String>) -> (r:
        Step)
        ensures
            (final(self)@, r@) == spec_on_file_read(old(self)@, line@, path@, contents),
    {
        match query_from_file(path, contents) {
            Ok(query) => self.submit(line, query.as_str()),
            Err(e) => {
                let reason = e.chain();
                self.to_prompt(
                    one_message(MessageKind::Error, concat2("Error: ", reason.as_str())),
                )
            },
        }
    }

    fn page(&mut self, path: String, messages: Vec<Message>) -> (r: Step)
        ensures
            (final(self)@, r@) == spec_page(old(self)@, path@, message_views(messages@)),
    {
        let command = match &self.pager {
            Some(pager) => if self.config.page_results {
                Some(pager.get_command())
            } else {
                None
            },
            None => None,
        };
        match command {
            Some(command) => self.to_wait(
                Phase::Paging,
                messages,
                Request::Page { path, program: command.program, args: command.args },
            ),
            None => self.to_prompt(messages),
        }
    }

    fn route(&mut self, rows: &[JsonValue], now: &Timestamp) -> (r: Step)
        ensures
            (final(self)@, r@) == spec_route(old(self)@, rows@, *now),
    {
        if self.config.write_results {
            match write_results(
                rows,
                self.config.results_directory.as_str(),
                &self.config.results_format,
                now,
            ) {
                Ok(file) => self.to_wait(
                    Phase::WritingResults,
                    no_messages(),
                    Request::WriteFile {
                        directory: file.directory,
                        file_name: file.file_name,
                        contents: file.contents,
                    },
                ),
                Err(e) => {
                    let reason = e.to_string();
                    self.to_prompt(
                        one_message(
                            MessageKind::Error,
                            concat2("Error: couldn't write results: ", reason.as_str()),
                        ),
                    )
                },
            }
        } else if self.config.page_results && self.pager.is_some() {
            match write_results(rows, "", &self.config.results_format, now) {
                Ok(file) => self.to_wait(
                    Phase::WritingTemporary,
                    no_messages(),
                    Request::WriteTemporaryFile {
                        file_name: file.file_name,
                        contents: file.contents,
                    },
                ),
                Err(e) => {
                    let reason = e.to_string();
                    self.to_prompt(
                        one_message(
                            MessageKind::Error,
                            concat2(
                                "Error: couldn't write results to temporary directory: ",
                                reason.as_str(),
                            ),
                        ),
                    )
                },
            }
        } else {
            let table = render_rows(rows);
            self.to_prompt(one_message(MessageKind::Plain, concat3("\n", table.as_str(), "\n")))
        }
    }

    fn on_outcome(&mut self, outcome: Result<QueryResults, String>, now: &Timestamp) -> (r: Step)
        ensures
            (final(self)@, r@) == spec_on_outcome(old(self)@, outcome, *now),
    {
        match outcome {
            Ok(QueryResults::Empty) => self.to_prompt(say(MessageKind::Plain, "\nNo results\n")),
            Ok(QueryResults::NonEmpty(results)) => self.route(results.results(), now),
            Err(cause) => self.to_prompt(
                one_message(
                    MessageKind::Error,
                    concat2("Error: couldn't get results: ", cause.as_str()),
                ),
            ),
        }
    }

    fn on_pager_acquired(&mut self, outcome: Result<Pager, PagerError>) -> (r: Step)
        ensures
            (final(self)@, r@) == spec_step(
                ConsoleView { phase: PhaseView::AcquiringPager, ..old(self)@ },
                ConsoleEvent::PagerAcquired(outcome),
            ),
    {
        match outcome {
            Ok(pager) => {
                self.pager = Some(pager);
                self.config.page_results = true;
                self.to_prompt(say(MessageKind::Info, "paging results turned ON"))
            },
            Err(e) => {
                let reason = e.to_string();
                self.to_prompt(
                    one_message(
                        MessageKind::Error,
                        concat2("Error: couldn't turn on pager: ", reason.as_str()),
                    ),
                )
            },
        }
    }

    fn on_file_written(&mut self, temporary: bool, outcome: Result<String, WriteFailure>) -> (r:
        Step)
        ensures
            (final(self)@, r@) == spec_step(
                ConsoleView {
                    phase: if temporary {
                        PhaseView::WritingTemporary
                    } else {
                        PhaseView::WritingResults
                    },
                    ..old(self)@
                },
                ConsoleEvent::FileWritten(outcome),
            ),
    {
        match outcome {
            Ok(path) => {
                let messages = if temporary {
                    no_messages()
                } else {
                    one_message(MessageKind::Info, concat2("wrote results to ", path.as_str()))
                };
                self.page(path, messages)
            },
            Err(failure) => {
                let reason = failure.to_string();
                let text = if temporary {
                    concat2(
                        "Error: couldn't write results to temporary directory: ",
                        reason.as_str(),
                    )
                } else {
                    concat2("Error: couldn't write results: ", reason.as_str())
                };
                self.to_prompt(one_message(MessageKind::Error, text))
            },
        }
    }

    /// Tells the console what happened, and gets back what to show and
    /// what to do next.
    pub fn step(&mut self, event: ConsoleEvent) -> (r: Step)
        ensures
            (final(self)@, r@) == spec_step(old(self)@, event),
    {
        match event {
            ConsoleEvent::Started => match self.phase {
                Phase::Starting => {
                    let help = help_messages(self.db_uri.as_str(), &self.config);
                    let messages = after_message(
                        Message { kind: MessageKind::Plain, text: banner_text() },
                        help,
                    );
                    self.to_prompt(messages)
                },
                _ => self.ignored(),
            },
            ConsoleEvent::Line(line) => match self.phase {
                Phase::AwaitingInput => self.on_line(line.as_str()),
                _ => self.ignored(),
            },
            ConsoleEvent::Interrupted { at_millis } => match self.phase {
                Phase::AwaitingInput => self.on_interrupt(at_millis),
                Phase::Executing => self.to_prompt(say(MessageKind::Hint, "\nquery cancelled")),
                _ => self.ignored(),
            },
            ConsoleEvent::EndOfInput => match self.phase {
                Phase::AwaitingInput => self.to_exit(None),
                _ => self.ignored(),
            },
            ConsoleEvent::ReadFailed(cause) => match self.phase {
                Phase::AwaitingInput => self.to_exit(
                    Some(concat2("couldn't read input: ", cause.as_str())),
                ),
                _ => self.ignored(),
            },
            ConsoleEvent::ScreenCleared(cleared) => match self.phase {
                Phase::ClearingScreen => {
                    let messages = if cleared {
                        no_messages()
                    } else {
                        say(MessageKind::Error, "Error: couldn't clear screen")
                    };
                    self.to_prompt(messages)
                },
                _ => self.ignored(),
            },
            ConsoleEvent::PagerAcquired(outcome) => match self.phase {
                Phase::AcquiringPager => self.on_pager_acquired(outcome),
                _ => self.ignored(),
            },
            ConsoleEvent::FileRead(contents) => {
                let named = match &self.phase {
                    Phase::ReadingQueryFile { line, path } => Some((line.clone(), path.clone())),
                    _ => None,
                };
                match named {
                    Some((line, path)) => self.on_file_read(line.as_str(), path.as_str(), contents),
                    None => self.ignored(),
                }
            },
            ConsoleEvent::QueryFinished { outcome, elapsed_millis, now } => match self.phase {
                Phase::Executing => {
                    let step = self.on_outcome(outcome, &now);
                    with_time(elapsed_millis, step)
                },
                _ => self.ignored(),
            },
            ConsoleEvent::FileWritten(outcome) => match self.phase {
                Phase::WritingResults => self.on_file_written(false, outcome),
                Phase::WritingTemporary => self.on_file_written(true, outcome),
                _ => self.ignored(),
            },
            ConsoleEvent::Paged(outcome) => match self.phase {
                Phase::Paging => match outcome {
                    Ok(_) => self.to_prompt(no_messages()),
                    Err(cause) => self.to_prompt(
                        one_message(
                            MessageKind::Error,
                            concat2("Error: couldn't display results via pager: ", cause.as_str()),
                        ),
                    ),
                },
                _ => self.ignored(),
            },
        }
    }

    /// Tells the console a list of events, one after the other, and gets
    /// back its answer to each. This replays a session of which every
    /// event is known beforehand; a live session is driven by `step`.
    pub fn run_loop(&mut self, events: Vec<ConsoleEvent>) -> (r: Vec<Step>)
        ensures
            final(self)@ == spec_run(old(self)@, events@),
            step_views(r@) == spec_answers(old(self)@, events@),
    {
        let mut steps: Vec<Step> = Vec::new();
        let ghost start = self@;
        proof {
            assert(step_views(steps@) =~= spec_answers(start, events@.take(0)));
        }
        for event in it: events
            invariant
                it.seq() == events@,
                self@ == spec_run(start, events@.take(it.index())),
                step_views(steps@) == spec_answers(start, events@.take(it.index())),
        {
            let ghost before = steps@;
            proof {
                assert(events@.take(it.index() + 1).drop_last() =~= events@.take(it.index()));
                assert(events@.take(it.index() + 1).last() == event);
            }
            let step = self.step(event);
            steps.push(step);
            proof {
                assert(step_views(steps@) =~= step_views(before).push(step@));
            }
        }
        proof {
            assert(events@.take(events@.len() as int) =~= events@);
        }
        steps
    }
}

} // verus!
