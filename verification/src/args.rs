//! The commands of the tracker, as the command line hands them over.

use vstd::prelude::*;

verus! {

/// One thing the user can ask of the tracker.
#[derive(Debug, Clone, PartialEq, Eq)]
pub enum Commands {
    /// Record a new task with this description.
    Add { description: String },
    /// Show every task.
    List,
    /// Delete the task with this id.
    Remove { id: i64 },
    /// Mark the task with this id as done.
    Done { id: i64 },
}

/// A parsed command line: the one command it names.
#[derive(Debug, Clone, PartialEq, Eq)]
pub struct Cli {
    pub command: Commands,
}

/// The command of a parsed command line.
pub fn parse_args(cli: Cli) -> (command: Commands)
    ensures
        command == cli.command,
{
    cli.command
}

} // verus!
