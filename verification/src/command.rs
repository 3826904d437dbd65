//! The commands of the command line.

use vstd::prelude::*;
use crate::text::same_text;

verus! {

/// What the user asks for.
#[derive(Clone, Copy, Debug, PartialEq, Eq, Structural)]
pub enum Command {
    /// Send the instruction as it is, with no evidence.
    Gpt,
    /// Capture the open windows and send the instruction with the evidence.
    Win,
    /// Anything else: nothing is sent.
    Unknown,
}

/// The command that `name` names.
pub open spec fn command_named(name: Seq<char>) -> Command {
    if name == "gpt"@ {
        Command::Gpt
    } else if name == "win"@ {
        Command::Win
    } else {
        Command::Unknown
    }
}

/// What is printed for a command that is not known.
pub open spec fn unknown_command_text() -> Seq<char> {
    "unknown command"@
}

/// Reads the command word.
pub fn parse_command(name: &str) -> (command: Command)
    ensures
        command == command_named(name@),
{
    if same_text(name, "gpt") {
        Command::Gpt
    } else if same_text(name, "win") {
        Command::Win
    } else {
        Command::Unknown
    }
}

/// What is printed for a command that is not known.
pub fn unknown_command_notice() -> (r: String)
    ensures
        r@ == unknown_command_text(),
{
    String::from_str("unknown command")
}

impl Command {
    /// Whether the command gathers evidence from the open windows.
    pub fn captures_windows(&self) -> (r: bool)
        ensures
            r == (*self == Command::Win),
    {
        match self {
            Command::Win => true,
            _ => false,
        }
    }

    /// Whether the command sends a request at all.
    pub fn sends_request(&self) -> (r: bool)
        ensures
            r == (*self != Command::Unknown),
    {
        match self {
            Command::Unknown => false,
            _ => true,
        }
    }
}

} // verus!
