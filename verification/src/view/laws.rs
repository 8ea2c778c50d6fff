//! What holds of every session, whatever happens in it.
//!
//! Each statement here is about [`spec_step`], which fixes what the
//! console does, and is proved from it.

use crate::config::{CTRL_C_QUIT_THRESHOLD_MILLIS, DEFAULT_RESULTS_DIR};
use crate::domain::output::spec_from_str;
use crate::domain::result::QueryResults;
use crate::service::output::Timestamp;
use crate::view::console::{
    config_after, interrupt_exits, message, spec_on_interrupt, spec_on_line, spec_run, spec_step,
    spec_time_message, ConfigView, ConsoleEvent, ConsoleView, MessageKind, PhaseView,
    RequestView,
};
use crate::view::input::{spec_classify, InputView};
use vstd::prelude::*;

verus! {

/// Whether an input names a command that changes the configuration, with
/// an argument that the command takes.
pub open spec fn is_valid_config_command(input: InputView) -> bool {
    match input {
        InputView::PageOn | InputView::PageOff => true,
        InputView::Format(arg) => spec_from_str(arg) is Some,
        InputView::DirReset | InputView::Dir(_) => true,
        InputView::WriteOn | InputView::WriteOff => true,
        _ => false,
    }
}

/// A line changes the configuration as the command that it holds says,
/// and in no other way: each field changes only by its own command, and
/// only where the argument is one that the command takes. A line that
/// holds no such command, or a command with an argument that it does not
/// take, leaves every field as it was.
pub proof fn law_config_changes_by_command(state: ConsoleView, line: Seq<char>)
    ensures
        ({
            let input = spec_classify(line);
            let before = state.config;
            let after = spec_on_line(state, line).0.config;
            &&& after == config_after(before, input, state.pager is Some)
            &&& after.page_results != before.page_results ==> input is PageOn || input is PageOff
            &&& after.write_results != before.write_results ==> input is WriteOn || input
                is WriteOff
            &&& after.results_format != before.results_format ==> input is Format
                && spec_from_str(input->Format_0) == Some(after.results_format)
            &&& after.results_directory != before.results_directory ==> input is DirReset
                || input is Dir
            &&& after.history_file_path == before.history_file_path
            &&& !is_valid_config_command(input) ==> after == before
        }),
{
}

/// Nothing but a line with a command, or the pager that `page on` asked
/// for, changes the configuration.
pub proof fn law_config_changes_by_lines_only(state: ConsoleView, event: ConsoleEvent)
    ensures
        spec_step(state, event).0.config != state.config ==> {
            ||| state.phase is AwaitingInput && event is Line
            ||| state.phase is AcquiringPager && event is PagerAcquired
        },
{
}

/// No event changes the file that keeps the history.
pub proof fn law_history_file_is_fixed(state: ConsoleView, events: Seq<ConsoleEvent>)
    ensures
        spec_run(state, events).config.history_file_path == state.config.history_file_path,
    decreases events.len(),
{
    if events.len() > 0 {
        law_history_file_is_fixed(state, events.drop_last());
    }
}

/// `dir reset` sets the directory for results to the default, whatever it
/// was, and a second `dir reset` changes nothing.
pub proof fn law_dir_reset_restores_default(state: ConsoleView, first: Seq<char>, second: Seq<char>)
    requires
        state.phase is AwaitingInput,
        spec_classify(first) == InputView::DirReset,
        spec_classify(second) == InputView::DirReset,
    ensures
        ({
            let once = spec_on_line(state, first).0;
            let twice = spec_on_line(once, second).0;
            &&& once.config.results_directory == DEFAULT_RESULTS_DIR@
            &&& once.config == (ConfigView {
                results_directory: DEFAULT_RESULTS_DIR@,
                ..state.config
            })
            &&& once.phase is AwaitingInput
            &&& twice == once
        }),
{
}

/// The console asks for a file to be written only when a query has come
/// back with rows. No line and no other event makes it ask for one.
pub proof fn law_files_come_from_results_only(state: ConsoleView, event: ConsoleEvent)
    ensures
        ({
            let request = spec_step(state, event).1.request;
            request is WriteFile || request is WriteTemporaryFile ==> {
                &&& state.phase is Executing
                &&& event is QueryFinished
                &&& event->QueryFinished_outcome is Ok
                &&& event->QueryFinished_outcome->Ok_0 is NonEmpty
                &&& request is WriteFile <==> state.config.write_results
            }
        }),
{
}

/// A query that comes back without rows is answered with the time it took
/// and the notice that there are no results. Nothing is written and
/// nothing is paged, and the session stays as it was.
pub proof fn law_empty_results_go_nowhere(
    state: ConsoleView,
    elapsed_millis: u128,
    now: Timestamp,
)
    requires
        state.phase is Executing,
    ensures
        ({
            let event = ConsoleEvent::QueryFinished {
                outcome: Ok(QueryResults::Empty),
                elapsed_millis,
                now,
            };
            let (next, step) = spec_step(state, event);
            &&& step.messages == seq![
                spec_time_message(elapsed_millis),
                message(MessageKind::Plain, "\nNo results\n"@),
            ]
            &&& step.request == RequestView::ReadLine
            &&& next == (ConsoleView { phase: PhaseView::AwaitingInput, ..state })
        }),
{
    let event = ConsoleEvent::QueryFinished { outcome: Ok(QueryResults::Empty), elapsed_millis, now };
    let step = spec_step(state, event).1;
    assert(step.messages =~= seq![
        spec_time_message(elapsed_millis),
        message(MessageKind::Plain, "\nNo results\n"@),
    ]);
}

/// `write on` and then `write off` leave the session as it was, with
/// writing off, and the console asks for nothing but the next line after
/// each of them.
pub proof fn law_write_on_then_off_writes_nothing(
    state: ConsoleView,
    on: Seq<char>,
    off: Seq<char>,
)
    requires
        state.phase is AwaitingInput,
        spec_classify(on) == InputView::WriteOn,
        spec_classify(off) == InputView::WriteOff,
    ensures
        ({
            let (first, first_step) = spec_on_line(state, on);
            let (second, second_step) = spec_on_line(first, off);
            &&& first_step.request == RequestView::ReadLine
            &&& second_step.request == RequestView::ReadLine
            &&& second == (ConsoleView {
                last_ctrl_c: None,
                config: ConfigView { write_results: false, ..state.config },
                ..state
            })
        }),
{
}

/// An interrupt while a query runs cancels the query: the console says
/// so and waits for the next line. The line that asked for the query stays
/// in the history, the configuration stays as it was, and when the query
/// comes back after all, the console takes no notice.
pub proof fn law_interrupt_cancels_running_query(
    state: ConsoleView,
    at_millis: u64,
    late: ConsoleEvent,
)
    requires
        state.phase is Executing,
        late is QueryFinished,
    ensures
        ({
            let (next, step) = spec_step(state, ConsoleEvent::Interrupted { at_millis });
            let (after, late_step) = spec_step(next, late);
            &&& step.messages == seq![message(MessageKind::Hint, "\nquery cancelled"@)]
            &&& step.request == RequestView::ReadLine
            &&& next == (ConsoleView { phase: PhaseView::AwaitingInput, ..state })
            &&& after == next
            &&& late_step.messages.len() == 0
            &&& late_step.request == RequestView::Pending
        }),
{
}

/// A line that is a query goes into the history as soon as the query is
/// asked for, so that it is there whether the query is cancelled or not.
pub proof fn law_query_line_is_remembered(state: ConsoleView, line: Seq<char>, at_millis: u64)
    requires
        state.phase is AwaitingInput,
        spec_classify(line) is Query,
    ensures
        ({
            let query = spec_classify(line)->Query_0;
            let (running, step) = spec_on_line(state, line);
            let (cancelled, _) = spec_step(running, ConsoleEvent::Interrupted { at_millis });
            &&& running.phase is Executing
            &&& step.request == (RequestView::Execute { query })
            &&& step.history_entry == Some(query)
            &&& running.history == state.history.push(query)
            &&& cancelled.history == state.history.push(query)
            &&& cancelled.config == state.config
        }),
{
}

/// Once a query has come back, an interrupt cancels nothing: the results
/// have gone their way, the session is no longer waiting for the query,
/// and the interrupt is taken as one at the prompt, or not at all.
pub proof fn law_interrupt_after_completion_cancels_nothing(
    state: ConsoleView,
    finished: ConsoleEvent,
    at_millis: u64,
)
    requires
        state.phase is Executing,
        finished is QueryFinished,
    ensures
        ({
            let (next, step) = spec_step(state, finished);
            let (after, interrupted) = spec_step(next, ConsoleEvent::Interrupted { at_millis });
            &&& !(next.phase is Executing)
            &&& step.messages.len() > 0
            &&& step.messages[0] == spec_time_message(finished->QueryFinished_elapsed_millis)
            &&& after.history == state.history
            &&& after.config == state.config
            &&& next.phase is AwaitingInput ==> interrupted == spec_on_interrupt(
                next,
                at_millis,
            ).1
            &&& !(next.phase is AwaitingInput) ==> after == next && interrupted.messages.len() == 0
        }),
{
}

/// Two interrupts at the prompt end the session where fewer milliseconds
/// than the threshold lie between them.
pub proof fn law_two_quick_interrupts_end_the_session(state: ConsoleView, first: u64, second: u64)
    requires
        state.phase is AwaitingInput,
        first <= second,
        second - first < CTRL_C_QUIT_THRESHOLD_MILLIS,
    ensures
        ({
            let (next, _) = spec_step(state, ConsoleEvent::Interrupted { at_millis: first });
            let (after, _) = spec_step(next, ConsoleEvent::Interrupted { at_millis: second });
            after.phase is Exited
        }),
{
}

/// Two interrupts at the prompt do not end the session where as many
/// milliseconds as the threshold, or more, lie between them, unless the
/// first of them already ended it: the console gives its hint a second
/// time and goes on waiting.
pub proof fn law_two_slow_interrupts_do_not_end_the_session(
    state: ConsoleView,
    first: u64,
    second: u64,
)
    requires
        state.phase is AwaitingInput,
        !interrupt_exits(state.last_ctrl_c, first),
        second - first >= CTRL_C_QUIT_THRESHOLD_MILLIS,
    ensures
        ({
            let (next, _) = spec_step(state, ConsoleEvent::Interrupted { at_millis: first });
            let (after, step) = spec_step(next, ConsoleEvent::Interrupted { at_millis: second });
            &&& after.phase is AwaitingInput
            &&& after.last_ctrl_c == Some(second)
            &&& step.request == RequestView::ReadLine
            &&& step.messages == seq![message(MessageKind::Hint, "press ctrl+c again to exit"@)]
        }),
{
}

/// A line between two interrupts at the prompt makes the second of them
/// the first again: the session goes on, however soon the second comes.
pub proof fn law_a_line_forgets_the_interrupt(
    state: ConsoleView,
    first: u64,
    line: Seq<char>,
    second: u64,
)
    requires
        state.phase is AwaitingInput,
        spec_classify(line) is Empty,
    ensures
        ({
            let (a, _) = spec_step(state, ConsoleEvent::Interrupted { at_millis: first });
            let (b, _) = spec_on_line(ConsoleView { phase: PhaseView::AwaitingInput, ..a }, line);
            let (c, _) = spec_step(b, ConsoleEvent::Interrupted { at_millis: second });
            !(a.phase is Exited) ==> c.phase is AwaitingInput && c.last_ctrl_c == Some(second)
        }),
{
}

/// Whether an input is a command on the configuration, with whatever
/// argument.
pub open spec fn is_config_command(input: InputView) -> bool {
    match input {
        InputView::PageOn | InputView::PageOff | InputView::PageUsage => true,
        InputView::Format(_) | InputView::FormatUsage => true,
        InputView::DirReset | InputView::Dir(_) | InputView::DirUsage => true,
        InputView::WriteOn | InputView::WriteOff | InputView::WriteUsage => true,
        _ => false,
    }
}

/// Whether every event of a list is a line that holds a command on the
/// configuration, and none of them asks for paging in a session that has
/// no pager yet.
pub open spec fn are_config_lines(events: Seq<ConsoleEvent>, has_pager: bool) -> bool {
    forall|i: int|
        0 <= i < events.len() ==> {
            &&& (#[trigger] events[i]) is Line
            &&& is_config_command(spec_classify(events[i]->Line_0@))
            &&& spec_classify(events[i]->Line_0@) is PageOn ==> has_pager
        }
}

/// The configuration after a list of lines, each of which changes it as
/// the command that it holds says.
pub open spec fn config_after_all(
    config: ConfigView,
    events: Seq<ConsoleEvent>,
    has_pager: bool,
) -> ConfigView
    decreases events.len(),
{
    if events.len() == 0 {
        config
    } else {
        config_after(
            config_after_all(config, events.drop_last(), has_pager),
            spec_classify(events.last()->Line_0@),
            has_pager,
        )
    }
}

/// Whatever commands on the configuration are entered, and in whatever
/// order, the configuration at the end is what the commands make of it one
/// after the other, the console is at the prompt again, and nothing else
/// of the session has changed but that an interrupt before them is
/// forgotten.
pub proof fn law_config_follows_the_commands(state: ConsoleView, events: Seq<ConsoleEvent>)
    requires
        state.phase is AwaitingInput,
        events.len() > 0,
        are_config_lines(events, state.pager is Some),
    ensures
        spec_run(state, events) == (ConsoleView {
            config: config_after_all(state.config, events, state.pager is Some),
            last_ctrl_c: None,
            ..state
        }),
    decreases events.len(),
{
    let before = events.drop_last();
    assert(events.last() == events[events.len() - 1]);
    assert forall|i: int| 0 <= i < before.len() implies {
        &&& (#[trigger] before[i]) is Line
        &&& is_config_command(spec_classify(before[i]->Line_0@))
        &&& spec_classify(before[i]->Line_0@) is PageOn ==> state.pager is Some
    } by {
        assert(before[i] == events[i]);
    }
    if before.len() > 0 {
        law_config_follows_the_commands(state, before);
    }
}

/// The history only grows, and only at its end: an event adds one line to
/// it, when a query is asked for, or leaves it as it was.
pub proof fn law_history_only_grows(state: ConsoleView, event: ConsoleEvent)
    ensures
        ({
            let (next, step) = spec_step(state, event);
            if step.request is Execute {
                &&& step.history_entry is Some
                &&& next.history == state.history.push(step.history_entry->Some_0)
            } else {
                &&& step.history_entry is None
                &&& next.history == state.history
            }
        }),
{
}

/// What was in the history stays there, first in the order in which it
/// came, whatever happens afterwards.
pub proof fn law_history_is_kept(state: ConsoleView, events: Seq<ConsoleEvent>)
    ensures
        state.history.is_prefix_of(spec_run(state, events).history),
    decreases events.len(),
{
    if events.len() > 0 {
        law_history_is_kept(state, events.drop_last());
        let before = spec_run(state, events.drop_last());
        law_history_only_grows(before, events.last());
        let after = spec_run(state, events);
        assert(before.history =~= after.history.subrange(0, before.history.len() as int));
        assert(state.history =~= after.history.subrange(0, state.history.len() as int)) by {
            assert(state.history =~= before.history.subrange(0, state.history.len() as int));
        }
    } else {
        assert(state.history =~= state.history.subrange(0, state.history.len() as int));
    }
}

/// A session ends in three ways only, each of them at the prompt: by a
/// word that ends it, by the end of the input or a failure to read it, and
/// by the second of two quick interrupts. An interrupt while a query runs
/// never ends it. Once ended, a session stays ended.
pub proof fn law_session_ends_at_the_prompt_only(state: ConsoleView, event: ConsoleEvent)
    ensures
        ({
            let (next, step) = spec_step(state, event);
            &&& state.phase is Exited ==> next == state && step.request is Pending
            &&& next.phase is Exited && !(state.phase is Exited) ==> {
                &&& state.phase is AwaitingInput
                &&& step.request is Exit
                &&& {
                    ||| event is Line && spec_classify(event->Line_0@) is Exit
                    ||| event is EndOfInput
                    ||| event is ReadFailed
                    ||| event is Interrupted && interrupt_exits(
                        state.last_ctrl_c,
                        event->Interrupted_at_millis,
                    )
                }
            }
            &&& step.request is Exit <==> next.phase is Exited && !(state.phase is Exited)
            &&& step.request is Exit && step.request->Exit_failure is Some ==> event is ReadFailed
        }),
{
}

/// The console asks for a query to be run only from the prompt or when
/// the file that holds the query has been read, and then waits for that
/// query alone: until it has come back or has been cancelled, no line is
/// taken.
pub proof fn law_one_query_at_a_time(state: ConsoleView, event: ConsoleEvent, line: ConsoleEvent)
    requires
        line is Line,
    ensures
        ({
            let (next, step) = spec_step(state, event);
            &&& step.request is Execute ==> (state.phase is AwaitingInput
                || state.phase is ReadingQueryFile) && next.phase is Executing
            &&& state.phase is Executing ==> spec_step(state, line).0 == state && spec_step(
                state,
                line,
            ).1.request is Pending
        }),
{
}

} // verus!
