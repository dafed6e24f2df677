//! The command-line surface: which of the two selections a run performs.

use vstd::prelude::*;

verus! {

/// The selection a run performs.
#[derive(Debug, Clone, Copy, PartialEq, Eq, Structural)]
pub enum Command {
    /// Pick a context from the kube config (`ctx`).
    PickContext,
    /// Pick a namespace for the current context (`ns`).
    PickNamespace,
}

/// The parsed command line.
#[derive(Debug, Clone, Copy, PartialEq, Eq)]
pub struct Args {
    /// The subcommand that was given, if any.
    pub command: Option<Command>,
}

impl Args {
    /// The selection that these arguments ask for. A run without a subcommand
    /// picks a context.
    pub open spec fn operation(self) -> Command {
        match self.command {
            Some(command) => command,
            None => Command::PickContext,
        }
    }

    /// Resolves the arguments to the selection to perform.
    pub fn resolve(&self) -> (command: Command)
        ensures
            command == self.operation(),
    {
        match self.command {
            Some(Command::PickNamespace) => Command::PickNamespace,
            _ => Command::PickContext,
        }
    }
}

} // verus!
