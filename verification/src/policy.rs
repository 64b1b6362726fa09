//! The bot's standing rules for commands: who may run one, and what becomes of
//! an error that the command framework reports.

use vstd::prelude::*;
use vstd::string::*;

verus! {

/// The one author whose commands are never run.
pub const BLOCKED_AUTHOR_ID: u64 = 123456789;

/// Whether a command issued by `author_id` may run.
pub fn command_check(author_id: u64) -> (r: bool)
    ensures
        r == (author_id != BLOCKED_AUTHOR_ID),
{
    author_id != BLOCKED_AUTHOR_ID
}

/// An error that the command framework reports, with the error itself as text.
#[derive(Clone, Debug, PartialEq, Eq)]
pub enum Fault {
    /// The bot could not be set up.
    Setup { error: String },
    /// A command returned an error.
    Command { command: String, error: String },
    /// Anything else.
    Other,
}

/// What to do about a reported error.
#[derive(Clone, Debug, PartialEq, Eq)]
pub enum FaultAction {
    /// Stop the bot with `message`.
    Abort { message: String },
    /// Write `line` to the error output and go on.
    Report { line: String },
    /// Leave the error to the framework's own handler.
    Forward,
}

/// A fault as a mathematical value.
pub ghost enum FaultView {
    Setup { error: Seq<char> },
    Command { command: Seq<char>, error: Seq<char> },
    Other,
}

/// A fault's action as a mathematical value.
pub ghost enum FaultActionView {
    Abort { message: Seq<char> },
    Report { line: Seq<char> },
    Forward,
}

impl View for Fault {
    type V = FaultView;

    open spec fn view(&self) -> FaultView {
        match self {
            Fault::Setup { error } => FaultView::Setup { error: error@ },
            Fault::Command { command, error } => FaultView::Command {
                command: command@,
                error: error@,
            },
            Fault::Other => FaultView::Other,
        }
    }
}

impl View for FaultAction {
    type V = FaultActionView;

    open spec fn view(&self) -> FaultActionView {
        match self {
            FaultAction::Abort { message } => FaultActionView::Abort { message: message@ },
            FaultAction::Report { line } => FaultActionView::Report { line: line@ },
            FaultAction::Forward => FaultActionView::Forward,
        }
    }
}

/// The action that a fault calls for: a failed setup stops the bot, a failed
/// command is reported under its name, and the rest is left to the framework.
pub open spec fn action_of(fault: FaultView) -> FaultActionView {
    match fault {
        FaultView::Setup { error } => FaultActionView::Abort {
            message: "Failed to start bot: "@ + error,
        },
        FaultView::Command { command, error } => FaultActionView::Report {
            line: "Error in command `"@ + command + "`: "@ + error,
        },
        FaultView::Other => FaultActionView::Forward,
    }
}

/// Decides what to do about an error that the command framework reports.
pub fn on_error(fault: Fault) -> (r: FaultAction)
    ensures
        r@ == action_of(fault@),
{
    match fault {
        Fault::Setup { error } => {
            let mut message: String = String::from_str("Failed to start bot: ");
            message.append(error.as_str());
            FaultAction::Abort { message }
        },
        Fault::Command { command, error } => {
            let mut line: String = String::from_str("Error in command `");
            line.append(command.as_str());
            line.append("`: ");
            line.append(error.as_str());
            FaultAction::Report { line }
        },
        Fault::Other => FaultAction::Forward,
    }
}

} // verus!
