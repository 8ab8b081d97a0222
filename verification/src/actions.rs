//! Actions bound to triggers.
//!
//! The library resolves which actions to run and in what order; executing
//! them (spawning a shell, awaiting its exit) is the runtime's part, behind
//! the [`ActionBackend`] contract: run the action, report success or
//! failure.

use vstd::prelude::*;

verus! {

/// The failure report of an action execution.
#[derive(Debug)]
pub struct ActionError {
    pub message: String,
}

/// The contract an action executor fulfils: run the action to completion
/// and report success or a descriptive failure.
pub trait ActionBackend {
    fn execute(&self) -> Result<(), ActionError>;
}

/// A shell command action: the command line handed to the shell.
#[derive(Debug)]
pub struct ShellAction {
    pub command: String,
}

/// An action to execute when a trigger fires, one variant per backend kind.
#[derive(Debug)]
pub enum ActionSpec {
    Shell(ShellAction),
}

} // verus!
