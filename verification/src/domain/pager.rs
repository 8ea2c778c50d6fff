//! The external program through which long results are shown.
//!
//! A pager is either the built-in one or a command line of the user's. It
//! is only accepted when its program can be found on this machine.

use crate::text::{clone_strings, concat3, is_empty, views};
use vstd::prelude::*;
use vstd::string::*;

verus! {

/// The program of the built-in pager.
pub const DEFAULT_PAGER_BINARY: &'static str = "less";

/// The one argument that the built-in pager is started with.
pub const DEFAULT_PAGER_FLAG: &'static str = "-+F";

/// The words into which `shlex::split` cuts a command line by the rules
/// of a POSIX shell, or `None` where the line is malformed (a quote that
/// is not closed, a backslash at the end).
pub uninterp spec fn shlex_split(command: Seq<char>) -> Option<Seq<Seq<char>>>;

/// `shlex::split`: cuts `command` into words. The result depends on the
/// characters of `command` alone.
#[verifier::external_body]
fn split_command(command: &str) -> (r: Option<Vec<String>>)
    ensures
        match r {
            Some(words) => shlex_split(command@) == Some(views(words@)),
            None => shlex_split(command@) is None,
        },
{
    shlex::split(command)
}

/// `which::which`: looks for an executable named `binary` on this machine,
/// by way of the search path. What it finds depends on the machine, so
/// nothing is promised of the result; an error comes back as its text.
#[verifier::external_body]
fn find_executable(binary: &str) -> (r: Result<(), String>) {
    which::which(binary).map(|_| ()).map_err(|e| e.to_string())
}

/// Why a command line is no pager command.
#[derive(Debug, Clone, Copy, PartialEq, Eq, Structural)]
pub enum CommandError {
    /// The command line holds no word.
    Empty,
    /// The command line cannot be cut into words.
    Malformed,
}

impl CommandError {
    /// The text that describes the error.
    pub open spec fn spec_message(self) -> Seq<char> {
        match self {
            CommandError::Empty => "command is empty"@,
            CommandError::Malformed => "couldn't parse command"@,
        }
    }

    /// The text that describes the error.
    pub fn to_string(&self) -> (r: String)
        ensures
            r@ == self.spec_message(),
    {
        match self {
            CommandError::Empty => String::from_str("command is empty"),
            CommandError::Malformed => String::from_str("couldn't parse command"),
        }
    }
}

/// Why no pager could be had.
#[derive(Debug)]
pub enum PagerError {
    /// The variable that may hold the user's command line could not be
    /// read as text.
    InvalidVariable { name: String },
    /// The user's command line is no pager command.
    InvalidCommand { command: String, reason: CommandError },
    /// The program of the user's pager was not found.
    ExecutableNotFound { binary: String, cause: String },
    /// The program of the built-in pager was not found.
    DefaultExecutableNotFound { binary: String, cause: String },
}

impl PagerError {
    /// The error and its cause in one line, the cause last.
    pub open spec fn spec_message(self) -> Seq<char> {
        match self {
            PagerError::InvalidVariable { name } => {
                "environment variable \""@ + name@ + "\" is not valid unicode"@
            },
            PagerError::InvalidCommand { command, reason } => {
                "couldn't build a pager from the command \""@ + command@ + "\": "@
                    + reason.spec_message()
            },
            PagerError::ExecutableNotFound { binary, cause } => {
                "couldn't find pager executable \""@ + binary@ + "\": "@ + cause@
            },
            PagerError::DefaultExecutableNotFound { binary, cause } => {
                "couldn't find executable for grafq's default pager \""@ + binary@ + "\": "@
                    + cause@
            },
        }
    }

    /// The error and its cause in one line, the cause last.
    pub fn to_string(&self) -> (r: String)
        ensures
            r@ == self.spec_message(),
    {
        match self {
            PagerError::InvalidVariable { name } => concat3(
                "environment variable \"",
                name.as_str(),
                "\" is not valid unicode",
            ),
            PagerError::InvalidCommand { command, reason } => {
                let mut r = concat3(
                    "couldn't build a pager from the command \"",
                    command.as_str(),
                    "\": ",
                );
                let why = reason.to_string();
                r.append(why.as_str());
                r
            },
            PagerError::ExecutableNotFound { binary, cause } => {
                let mut r = concat3("couldn't find pager executable \"", binary.as_str(), "\": ");
                r.append(cause.as_str());
                r
            },
            PagerError::DefaultExecutableNotFound { binary, cause } => {
                let mut r = concat3(
                    "couldn't find executable for grafq's default pager \"",
                    binary.as_str(),
                    "\": ",
                );
                r.append(cause.as_str());
                r
            },
        }
    }
}

/// A pager command of the user's: a program and its arguments.
#[derive(Debug)]
pub struct CustomPager {
    pub binary: String,
    pub args: Vec<String>,
}

/// The pager command that a list of words makes: the first word is the
/// program, the others are its arguments.
pub open spec fn command_of_words(words: Option<Seq<Seq<char>>>) -> Result<
    (Seq<char>, Seq<Seq<char>>),
    CommandError,
> {
    match words {
        None => Err(CommandError::Malformed),
        Some(w) => if w.len() == 0 {
            Err(CommandError::Empty)
        } else {
            Ok((w[0], w.subrange(1, w.len() as int)))
        },
    }
}

/// The pager command that a command line makes, given how it is cut into
/// words.
pub open spec fn command_of_line(command: Seq<char>) -> Result<
    (Seq<char>, Seq<Seq<char>>),
    CommandError,
> {
    if command.len() == 0 {
        Err(CommandError::Empty)
    } else {
        command_of_words(shlex_split(command))
    }
}

impl CustomPager {
    /// The program and the arguments.
    pub open spec fn view(self) -> (Seq<char>, Seq<Seq<char>>) {
        (self.binary@, views(self.args@))
    }

    /// Makes a pager command of the words of a command line.
    pub fn from_words(words: Option<Vec<String>>) -> (r: Result<CustomPager, CommandError>)
        ensures
            match r {
                Ok(pager) => command_of_words(
                    match words {
                        Some(w) => Some(views(w@)),
                        None => None,
                    },
                ) == Ok::<(Seq<char>, Seq<Seq<char>>), CommandError>(pager@),
                Err(e) => command_of_words(
                    match words {
                        Some(w) => Some(views(w@)),
                        None => None,
                    },
                ) == Err::<(Seq<char>, Seq<Seq<char>>), CommandError>(e),
            },
    {
        match words {
            None => Err(CommandError::Malformed),
            Some(w) => {
                if w.len() == 0 {
                    return Err(CommandError::Empty);
                }
                let binary = w[0].clone();
                let mut args: Vec<String> = Vec::new();
                let mut i: usize = 1;
                while i < w.len()
                    invariant
                        1 <= i <= w.len(),
                        args@.len() == i - 1,
                        forall|j: int| 0 <= j < i - 1 ==> args@[j]@ == w@[j + 1]@,
                    decreases w.len() - i,
                {
                    args.push(w[i].clone());
                    i += 1;
                }
                proof {
                    assert(views(args@) =~= views(w@).subrange(1, w@.len() as int));
                }
                Ok(CustomPager { binary, args })
            },
        }
    }

    /// Reads a pager command from a command line.
    pub fn try_from(command: &str) -> (r: Result<CustomPager, CommandError>)
        ensures
            match r {
                Ok(pager) => command_of_line(command@) == Ok::<
                    (Seq<char>, Seq<Seq<char>>),
                    CommandError,
                >(pager@),
                Err(e) => command_of_line(command@) == Err::<
                    (Seq<char>, Seq<Seq<char>>),
                    CommandError,
                >(e),
            },
    {
        if is_empty(command) {
            return Err(CommandError::Empty);
        }
        CustomPager::from_words(split_command(command))
    }
}

/// The two kinds of pager.
#[derive(Debug)]
pub enum PagerInner {
    Default,
    Custom(CustomPager),
}

impl PagerInner {
    /// The program of the pager.
    pub open spec fn spec_binary(self) -> Seq<char> {
        match self {
            PagerInner::Default => DEFAULT_PAGER_BINARY@,
            PagerInner::Custom(custom) => custom.binary@,
        }
    }

    /// The arguments that the pager is started with, before the file.
    pub open spec fn spec_args(self) -> Seq<Seq<char>> {
        match self {
            PagerInner::Default => seq![DEFAULT_PAGER_FLAG@],
            PagerInner::Custom(custom) => views(custom.args@),
        }
    }

    /// The program of the pager.
    pub fn binary(&self) -> (r: String)
        ensures
            r@ == self.spec_binary(),
    {
        match self {
            PagerInner::Default => String::from_str(DEFAULT_PAGER_BINARY),
            PagerInner::Custom(custom) => custom.binary.clone(),
        }
    }

    /// The command that starts the pager.
    pub fn get_command(&self) -> (r: PagerCommand)
        ensures
            r.program@ == self.spec_binary(),
            views(r.args@) == self.spec_args(),
    {
        match self {
            PagerInner::Default => {
                let mut args: Vec<String> = Vec::new();
                args.push(String::from_str(DEFAULT_PAGER_FLAG));
                proof {
                    assert(views(args@) =~= seq![DEFAULT_PAGER_FLAG@]);
                }
                PagerCommand { program: String::from_str(DEFAULT_PAGER_BINARY), args }
            },
            PagerInner::Custom(custom) => PagerCommand {
                program: custom.binary.clone(),
                args: clone_strings(&custom.args),
            },
        }
    }
}

/// A program to start and the arguments to start it with. The file to show
/// is added as the last argument by whoever starts it.
#[derive(Debug)]
pub struct PagerCommand {
    pub program: String,
    pub args: Vec<String>,
}

/// A pager whose program was found on this machine when it was made.
#[derive(Debug)]
pub struct Pager(PagerInner);

impl Pager {
    /// The kind of pager that this is.
    pub closed spec fn inner(self) -> PagerInner {
        self.0
    }

    /// The built-in pager, given the outcome of the search for its program.
    pub fn default_from_lookup(lookup: Result<(), String>) -> (r: Result<Pager, PagerError>)
        ensures
            match lookup {
                Ok(_) => r is Ok && r->Ok_0.inner() == PagerInner::Default,
                Err(cause) => r is Err && r->Err_0 == (PagerError::DefaultExecutableNotFound {
                    binary: r->Err_0->DefaultExecutableNotFound_binary,
                    cause,
                }) && r->Err_0->DefaultExecutableNotFound_binary@ == DEFAULT_PAGER_BINARY@,
            },
    {
        match lookup {
            Ok(_) => Ok(Pager(PagerInner::Default)),
            Err(cause) => Err(
                PagerError::DefaultExecutableNotFound {
                    binary: String::from_str(DEFAULT_PAGER_BINARY),
                    cause,
                },
            ),
        }
    }

    /// The user's pager, given the outcome of the search for its program.
    pub fn custom_from_lookup(custom: CustomPager, lookup: Result<(), String>) -> (r: Result<
        Pager,
        PagerError,
    >)
        ensures
            match lookup {
                Ok(_) => r is Ok && r->Ok_0.inner() == PagerInner::Custom(custom),
                Err(cause) => r is Err && r->Err_0 == (PagerError::ExecutableNotFound {
                    binary: custom.binary,
                    cause,
                }),
            },
    {
        match lookup {
            Ok(_) => Ok(Pager(PagerInner::Custom(custom))),
            Err(cause) => Err(PagerError::ExecutableNotFound { binary: custom.binary, cause }),
        }
    }

    /// What may come of asking for the built-in pager: the pager, or the
    /// report that its program was not found.
    pub open spec fn default_outcome(r: Result<Pager, PagerError>) -> bool {
        match r {
            Ok(pager) => pager.inner() == PagerInner::Default,
            Err(e) => e is DefaultExecutableNotFound && e->DefaultExecutableNotFound_binary@
                == DEFAULT_PAGER_BINARY@,
        }
    }

    /// What may come of asking for the pager of the command line `cmd`:
    /// the pager that the line names, the report that the line names none,
    /// or the report that the program was not found.
    pub open spec fn custom_outcome(cmd: Seq<char>, r: Result<Pager, PagerError>) -> bool {
        match r {
            Ok(pager) => pager.inner() is Custom && command_of_line(cmd) == Ok::<
                (Seq<char>, Seq<Seq<char>>),
                CommandError,
            >(pager.inner()->Custom_0@),
            Err(PagerError::InvalidCommand { command, reason }) => command@ == cmd
                && command_of_line(cmd) == Err::<(Seq<char>, Seq<Seq<char>>), CommandError>(
                reason,
            ),
            Err(PagerError::ExecutableNotFound { binary, cause }) => command_of_line(cmd) is Ok
                && command_of_line(cmd)->Ok_0.0 == binary@,
            Err(_) => false,
        }
    }

    /// The built-in pager, where its program is found on this machine.
    pub fn default() -> (r: Result<Pager, PagerError>)
        ensures
            Pager::default_outcome(r),
    {
        Pager::default_from_lookup(find_executable(DEFAULT_PAGER_BINARY))
    }

    /// The pager that the command line `cmd` names, where the line is a
    /// pager command and its program is found on this machine.
    pub fn custom(cmd: &str) -> (r: Result<Pager, PagerError>)
        ensures
            Pager::custom_outcome(cmd@, r),
    {
        match CustomPager::try_from(cmd) {
            Err(reason) => Err(
                PagerError::InvalidCommand { command: String::from_str(cmd), reason },
            ),
            Ok(custom) => {
                let lookup = find_executable(custom.binary.as_str());
                Pager::custom_from_lookup(custom, lookup)
            },
        }
    }

    /// The command that starts this pager.
    pub fn get_command(&self) -> (r: PagerCommand)
        ensures
            r.program@ == self.inner().spec_binary(),
            views(r.args@) == self.inner().spec_args(),
    {
        self.0.get_command()
    }
}

} // verus!
