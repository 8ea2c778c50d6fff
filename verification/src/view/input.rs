//! What a line of input asks for.
//!
//! A line is looked at without the white space around it. It is nothing, a
//! word that ends the session, clears the screen or shows the help, a
//! command that changes the session's configuration, or else a query. The
//! order of this list decides where two readings are possible.

use crate::text::{
    concat3, is_blank, is_empty, is_whitespace, lemma_find_first, lemma_trimmed_is_empty_iff_blank,
    lemma_trimmed_of_tight, matches_at, spec_split_once, spec_strip_prefix, split_once,
    starts_with, str_eq, strip_prefix, trim, trimmed,
};
use vstd::prelude::*;
use vstd::string::*;

verus! {

/// What a line of input asks for. Arguments are parts of the line.
#[derive(Debug, Clone, Copy)]
pub enum Input<'a> {
    /// Nothing but white space.
    Empty,
    /// End the session.
    Exit,
    /// Clear the screen.
    Clear,
    /// Show the help.
    Help,
    /// `page on`
    PageOn,
    /// `page off`
    PageOff,
    /// `page` with anything else, or with nothing.
    PageUsage,
    /// `format` with an argument, which is yet to be read.
    Format(&'a str),
    /// `format` without an argument.
    FormatUsage,
    /// `dir reset`
    DirReset,
    /// `dir` with a directory.
    Dir(&'a str),
    /// `dir` without an argument.
    DirUsage,
    /// `write on`
    WriteOn,
    /// `write off`
    WriteOff,
    /// `write` with anything else, or with nothing.
    WriteUsage,
    /// `@` and the path of a file that holds the query.
    QueryFile(&'a str),
    /// `@` without a path.
    QueryFileMissingPath,
    /// A query, given as it is.
    Query(&'a str),
}

/// What a line of input asks for, over the characters of its arguments.
pub ghost enum InputView {
    Empty,
    Exit,
    Clear,
    Help,
    PageOn,
    PageOff,
    PageUsage,
    Format(Seq<char>),
    FormatUsage,
    DirReset,
    Dir(Seq<char>),
    DirUsage,
    WriteOn,
    WriteOff,
    WriteUsage,
    QueryFile(Seq<char>),
    QueryFileMissingPath,
    Query(Seq<char>),
}

impl<'a> View for Input<'a> {
    type V = InputView;

    open spec fn view(&self) -> InputView {
        match *self {
            Input::Empty => InputView::Empty,
            Input::Exit => InputView::Exit,
            Input::Clear => InputView::Clear,
            Input::Help => InputView::Help,
            Input::PageOn => InputView::PageOn,
            Input::PageOff => InputView::PageOff,
            Input::PageUsage => InputView::PageUsage,
            Input::Format(arg) => InputView::Format(arg@),
            Input::FormatUsage => InputView::FormatUsage,
            Input::DirReset => InputView::DirReset,
            Input::Dir(arg) => InputView::Dir(arg@),
            Input::DirUsage => InputView::DirUsage,
            Input::WriteOn => InputView::WriteOn,
            Input::WriteOff => InputView::WriteOff,
            Input::WriteUsage => InputView::WriteUsage,
            Input::QueryFile(path) => InputView::QueryFile(path@),
            Input::QueryFileMissingPath => InputView::QueryFileMissingPath,
            Input::Query(query) => InputView::Query(query@),
        }
    }
}

/// What follows the first space of `line`, if it has one.
pub open spec fn argument(line: Seq<char>) -> Option<Seq<char>> {
    match spec_split_once(line, " "@) {
        Some((_, arg)) => Some(arg),
        None => None,
    }
}

/// What a switch command asks for: `on`, `off`, or neither.
pub open spec fn spec_switch(line: Seq<char>, on: InputView, off: InputView, usage: InputView)
    -> InputView {
    if argument(line) == Some("on"@) {
        on
    } else if argument(line) == Some("off"@) {
        off
    } else {
        usage
    }
}

/// What a query line asks for: a file after `@`, or the line itself.
pub open spec fn spec_query(line: Seq<char>) -> InputView {
    match spec_strip_prefix(line, "@"@) {
        Some(rest) => if trimmed(rest).len() == 0 {
            InputView::QueryFileMissingPath
        } else {
            InputView::QueryFile(trimmed(rest))
        },
        None => InputView::Query(line),
    }
}

/// What a line that is not blank and has no white space around it asks
/// for.
pub open spec fn spec_classify_trimmed(line: Seq<char>) -> InputView {
    if line == "bye"@ || line == "exit"@ || line == "quit"@ || line == ":q"@ {
        InputView::Exit
    } else if line == "clear"@ {
        InputView::Clear
    } else if line == "help"@ || line == ":h"@ {
        InputView::Help
    } else if "page"@.is_prefix_of(line) {
        spec_switch(line, InputView::PageOn, InputView::PageOff, InputView::PageUsage)
    } else if "format"@.is_prefix_of(line) {
        match argument(line) {
            Some(arg) => InputView::Format(arg),
            None => InputView::FormatUsage,
        }
    } else if "dir"@.is_prefix_of(line) || "output"@.is_prefix_of(line) {
        match argument(line) {
            Some(arg) => if arg == "reset"@ {
                InputView::DirReset
            } else {
                InputView::Dir(arg)
            },
            None => InputView::DirUsage,
        }
    } else if "write"@.is_prefix_of(line) {
        spec_switch(line, InputView::WriteOn, InputView::WriteOff, InputView::WriteUsage)
    } else {
        spec_query(line)
    }
}

/// What a line of input asks for.
pub open spec fn spec_classify(line: Seq<char>) -> InputView {
    if trimmed(line).len() == 0 {
        InputView::Empty
    } else {
        spec_classify_trimmed(trimmed(line))
    }
}

fn argument_of<'a>(line: &'a str) -> (r: Option<&'a str>)
    ensures
        match r {
            Some(arg) => argument(line@) == Some(arg@),
            None => argument(line@) is None,
        },
{
    match split_once(line, " ") {
        Some((_, arg)) => Some(arg),
        None => None,
    }
}

/// Tells what a line of input asks for.
pub fn classify<'a>(line: &'a str) -> (r: Input<'a>)
    ensures
        r@ == spec_classify(line@),
{
    let t = trim(line);
    if is_empty(t) {
        return Input::Empty;
    }
    if str_eq(t, "bye") || str_eq(t, "exit") || str_eq(t, "quit") || str_eq(t, ":q") {
        return Input::Exit;
    }
    if str_eq(t, "clear") {
        return Input::Clear;
    }
    if str_eq(t, "help") || str_eq(t, ":h") {
        return Input::Help;
    }
    if starts_with(t, "page") {
        return match argument_of(t) {
            Some(arg) => if str_eq(arg, "on") {
                Input::PageOn
            } else if str_eq(arg, "off") {
                Input::PageOff
            } else {
                Input::PageUsage
            },
            None => Input::PageUsage,
        };
    }
    if starts_with(t, "format") {
        return match argument_of(t) {
            Some(arg) => Input::Format(arg),
            None => Input::FormatUsage,
        };
    }
    if starts_with(t, "dir") || starts_with(t, "output") {
        return match argument_of(t) {
            Some(arg) => if str_eq(arg, "reset") {
                Input::DirReset
            } else {
                Input::Dir(arg)
            },
            None => Input::DirUsage,
        };
    }
    if starts_with(t, "write") {
        return match argument_of(t) {
            Some(arg) => if str_eq(arg, "on") {
                Input::WriteOn
            } else if str_eq(arg, "off") {
                Input::WriteOff
            } else {
                Input::WriteUsage
            },
            None => Input::WriteUsage,
        };
    }
    match strip_prefix(t, "@") {
        Some(rest) => {
            let path = trim(rest);
            if is_empty(path) {
                Input::QueryFileMissingPath
            } else {
                Input::QueryFile(path)
            }
        },
        None => Input::Query(t),
    }
}

/// Why a line that stands for a query gives none.
#[derive(Debug)]
pub enum QueryInputError {
    /// The line is `@` with no path after it.
    MissingPath,
    /// The file holds nothing but white space.
    EmptyFile { path: String },
    /// The file could not be read; the cause is what the system said.
    Unreadable { path: String, cause: String },
}

impl QueryInputError {
    /// The text that describes the error, without its cause.
    pub open spec fn spec_message(self) -> Seq<char> {
        match self {
            QueryInputError::MissingPath => "no file path provided after '@'"@,
            QueryInputError::EmptyFile { path } => "file '"@ + path@ + "' is empty"@,
            QueryInputError::Unreadable { path, cause } => "couldn't read file \""@ + path@
                + "\""@,
        }
    }

    /// The error and its cause in one line, the cause last.
    pub open spec fn spec_chain(self) -> Seq<char> {
        match self {
            QueryInputError::Unreadable { path, cause } => self.spec_message() + ": "@ + cause@,
            _ => self.spec_message(),
        }
    }

    /// The text that describes the error, without its cause.
    pub fn to_string(&self) -> (r: String)
        ensures
            r@ == self.spec_message(),
    {
        match self {
            QueryInputError::MissingPath => String::from_str("no file path provided after '@'"),
            QueryInputError::EmptyFile { path } => concat3("file '", path.as_str(), "' is empty"),
            QueryInputError::Unreadable { path, cause } => concat3(
                "couldn't read file \"",
                path.as_str(),
                "\"",
            ),
        }
    }

    /// The error and its cause in one line, the cause last.
    pub fn chain(&self) -> (r: String)
        ensures
            r@ == self.spec_chain(),
    {
        let mut r = self.to_string();
        match self {
            QueryInputError::Unreadable { path, cause } => {
                r.append(": ");
                r.append(cause.as_str());
            },
            _ => {},
        }
        r
    }
}

/// The query that a file gives: what the file holds, without the white
/// space around it. A file that could not be read gives none, and neither
/// does one that holds nothing else than white space.
pub open spec fn spec_query_from_file(path: Seq<char>, contents: Result<String, String>) -> Result<
    Seq<char>,
    Seq<char>,
> {
    match contents {
        Ok(text) => if trimmed(text@).len() == 0 {
            Err("file '"@ + path + "' is empty"@)
        } else {
            Ok(trimmed(text@))
        },
        Err(cause) => Err("couldn't read file \""@ + path + "\""@ + ": "@ + cause@),
    }
}

/// The query that the file at `path` gives, given what reading it gave.
pub fn query_from_file(path: &str, contents: Result<String, String>) -> (r: Result<
    String,
    QueryInputError,
>)
    ensures
        match r {
            Ok(query) => spec_query_from_file(path@, contents) == Ok::<Seq<char>, Seq<char>>(
                query@,
            ),
            Err(e) => spec_query_from_file(path@, contents) == Err::<Seq<char>, Seq<char>>(
                e.spec_chain(),
            ) && match e {
                QueryInputError::MissingPath => false,
                QueryInputError::EmptyFile { path: p } => p@ == path@ && contents is Ok,
                QueryInputError::Unreadable { path: p, cause } => p@ == path@ && contents == Err::<
                    String,
                    String,
                >(cause),
            },
        },
{
    match contents {
        Ok(text) => {
            let query = trim(text.as_str());
            if is_empty(query) {
                Err(QueryInputError::EmptyFile { path: String::from_str(path) })
            } else {
                Ok(String::from_str(query))
            }
        },
        Err(cause) => Err(QueryInputError::Unreadable { path: String::from_str(path), cause }),
    }
}

/// A line asks for nothing exactly where it holds nothing but white
/// space.
pub proof fn lemma_blank_lines_ask_for_nothing(line: Seq<char>)
    ensures
        spec_classify(line) is Empty <==> is_blank(line),
{
    lemma_trimmed_is_empty_iff_blank(line);
}

/// The words that a command on the configuration begins with.
pub ghost enum Verb {
    Page,
    Format,
    Dir,
    Output,
    Write,
}

impl Verb {
    /// The word itself.
    pub open spec fn text(self) -> Seq<char> {
        match self {
            Verb::Page => "page"@,
            Verb::Format => "format"@,
            Verb::Dir => "dir"@,
            Verb::Output => "output"@,
            Verb::Write => "write"@,
        }
    }
}

/// What a verb with an argument asks for.
pub open spec fn spec_command(verb: Verb, arg: Seq<char>) -> InputView {
    match verb {
        Verb::Page => if arg == "on"@ {
            InputView::PageOn
        } else if arg == "off"@ {
            InputView::PageOff
        } else {
            InputView::PageUsage
        },
        Verb::Format => InputView::Format(arg),
        Verb::Dir | Verb::Output => if arg == "reset"@ {
            InputView::DirReset
        } else {
            InputView::Dir(arg)
        },
        Verb::Write => if arg == "on"@ {
            InputView::WriteOn
        } else if arg == "off"@ {
            InputView::WriteOff
        } else {
            InputView::WriteUsage
        },
    }
}

/// A verb, a space and an argument that does not end in white space make
/// a line that asks for what the verb asks for with that argument: the
/// line is taken as it stands, it is none of the words that end the
/// session, clear the screen or show the help, and it begins with that
/// verb and with no verb that is looked for before it.
pub proof fn lemma_command_line(verb: Verb, arg: Seq<char>)
    requires
        arg.len() > 0,
        !is_whitespace(arg.last()),
    ensures
        spec_classify(verb.text() + " "@ + arg) == spec_command(verb, arg),
{
    let word = verb.text();
    let line = word + " "@ + arg;
    let at = word.len() as int;
    reveal_strlit("bye");
    reveal_strlit("exit");
    reveal_strlit("quit");
    reveal_strlit(":q");
    reveal_strlit("clear");
    reveal_strlit("help");
    reveal_strlit(":h");
    reveal_strlit("page");
    reveal_strlit("format");
    reveal_strlit("dir");
    reveal_strlit("output");
    reveal_strlit("write");
    reveal_strlit(" ");
    assert(line.len() == word.len() + 1 + arg.len());
    assert(line[0] == word[0]);
    assert(line[at] == ' ');
    assert(line.last() == arg.last());
    assert forall|i: int| 0 <= i < at implies line[i] == word[i] by {}
    lemma_trimmed_of_tight(line);
    assert(line.subrange(0, at) =~= word);
    assert forall|other: Verb| other != verb implies !other.text().is_prefix_of(line) by {
        if other.text().len() <= line.len() {
            assert(line.subrange(0, other.text().len() as int)[0] == line[0]);
            assert(other.text()[0] != word[0]);
        }
    }
    assert(!Verb::Page.text().is_prefix_of(line) || verb == Verb::Page);
    assert(!Verb::Format.text().is_prefix_of(line) || verb == Verb::Format);
    assert(!Verb::Dir.text().is_prefix_of(line) || verb == Verb::Dir);
    assert(!Verb::Output.text().is_prefix_of(line) || verb == Verb::Output);
    assert(!Verb::Write.text().is_prefix_of(line) || verb == Verb::Write);
    assert(matches_at(line, " "@, at)) by {
        assert(line.subrange(at, at + 1) =~= " "@);
    }
    assert forall|i: int| 0 <= i < at implies !matches_at(line, " "@, i) by {
        assert(line.subrange(i, i + 1)[0] == line[i]);
        assert(line[i] != ' ');
    }
    lemma_find_first(line, " "@, 0, at);
    assert(line.subrange(at + 1, line.len() as int) =~= arg);
    assert(argument(line) == Some(arg));
}

/// The line `dir reset` asks for the default directory.
pub proof fn lemma_dir_reset_is_read()
    ensures
        spec_classify("dir reset"@) == InputView::DirReset,
{
    reveal_strlit("dir reset");
    reveal_strlit("dir");
    reveal_strlit(" ");
    reveal_strlit("reset");
    assert("dir reset"@ =~= "dir"@ + " "@ + "reset"@);
    lemma_command_line(Verb::Dir, "reset"@);
}

/// The line `write on` asks for results to be written.
pub proof fn lemma_write_on_is_read()
    ensures
        spec_classify("write on"@) == InputView::WriteOn,
{
    reveal_strlit("write on");
    reveal_strlit("write");
    reveal_strlit(" ");
    reveal_strlit("on");
    assert("write on"@ =~= "write"@ + " "@ + "on"@);
    lemma_command_line(Verb::Write, "on"@);
}

/// The line `write off` asks for results not to be written.
pub proof fn lemma_write_off_is_read()
    ensures
        spec_classify("write off"@) == InputView::WriteOff,
{
    reveal_strlit("write off");
    reveal_strlit("write");
    reveal_strlit(" ");
    reveal_strlit("on");
    reveal_strlit("off");
    assert("write off"@ =~= "write"@ + " "@ + "off"@);
    lemma_command_line(Verb::Write, "off"@);
}

} // verus!
