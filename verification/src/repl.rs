//! The decisions of a read-eval-print loop.
//!
//! The application prompts, reads a line, parses its words into a command
//! and evaluates the command; what to do next is decided here.

use vstd::prelude::*;
use vstd::string::*;

verus! {

/// Indicates if the REPL loop should quit
#[derive(Clone, Copy, Debug, PartialEq, Eq, Structural)]
pub enum ControlFlow {
    Continue,
    Exit,
}

/// The line without its leading and trailing whitespace, as `str::trim`
/// returns it.
pub uninterp spec fn trimmed(line: Seq<char>) -> Seq<char>;

/// The words of a line under the syntax of the POSIX shell, as
/// `shlex::split` returns them: nothing where the line is erroneous.
pub uninterp spec fn shell_words(line: Seq<char>) -> Option<Seq<Seq<char>>>;

/// `str::trim` returns the slice that is left when leading and trailing
/// whitespace is removed. The result is named; nothing more is claimed.
pub assume_specification[ str::trim ](s: &str) -> (r: &str)
    ensures
        r@ == trimmed(s@),
;

/// `shlex::split` consumes the whole string at once and returns its words,
/// or `None` if the input was erroneous. The result is named; nothing more
/// is claimed.
pub assume_specification[ shlex::split ](in_str: &str) -> (r: Option<Vec<String>>)
    ensures
        r.deep_view() == shell_words(in_str@),
;

/// The words of a line of input, or nothing where the line is malformed.
pub fn read(line: &str) -> (r: Option<Vec<String>>)
    ensures
        r.deep_view() == shell_words(trimmed(line@)),
{
    shlex::split(line.trim())
}

/// What has happened in the loop.
#[derive(Debug, PartialEq, Eq)]
pub enum Event {
    /// A line was read: here are its words, or nothing where it is
    /// malformed.
    Line(Option<Vec<String>>),
    /// The parser refused the words, with this message.
    Rejected(String),
    /// The command was evaluated, with this outcome.
    Evaluated(ControlFlow),
}

/// What the loop does next.
#[derive(Debug, PartialEq, Eq)]
pub enum Action {
    /// Prompt and read a line.
    Prompt,
    /// Print the message, then prompt and read a line.
    Report(String),
    /// Parse the words into a command and evaluate it.
    Parse(Vec<String>),
    /// Leave the loop.
    Exit,
}

/// Decide what the loop does after `event`.
///
/// A malformed line is reported and an empty one skipped; any other line
/// goes to the parser. What the parser refuses is reported with its
/// message. After a command the loop goes on unless the command asked to
/// exit.
pub fn step(event: Event) -> (r: Action)
    ensures
        match event {
            Event::Line(None) => r matches Action::Report(message) && message@
                == "error: malformed input"@,
            Event::Line(Some(words)) => if words@.len() == 0 {
                r is Prompt
            } else {
                r == Action::Parse(words)
            },
            Event::Rejected(message) => r == Action::Report(message),
            Event::Evaluated(ControlFlow::Continue) => r is Prompt,
            Event::Evaluated(ControlFlow::Exit) => r is Exit,
        },
        r is Exit <==> event == Event::Evaluated(ControlFlow::Exit),
{
    match event {
        Event::Line(None) => Action::Report(String::from_str("error: malformed input")),
        Event::Line(Some(words)) => if words.is_empty() {
            Action::Prompt
        } else {
            Action::Parse(words)
        },
        Event::Rejected(message) => Action::Report(message),
        Event::Evaluated(ControlFlow::Continue) => Action::Prompt,
        Event::Evaluated(ControlFlow::Exit) => Action::Exit,
    }
}

} // verus!
