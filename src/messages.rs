//! The status messages the background workflow sends to the interface, and
//! the outcome of one external command.
use vstd::prelude::*;
use crate::errors::ParsedError;

verus! {

/// How one external command ended: it ran to completion (successfully or
/// not), or it was cancelled.
#[derive(Debug, Clone, Copy, PartialEq, Eq, Structural)]
pub enum CommandResult {
    Completed(bool),
    Cancelled,
}

/// Combine what was observed of a command into its result. Cancellation
/// takes precedence over any exit status; a command that could not be
/// started (`exit_success` is `None`) did not succeed.
pub fn command_outcome(cancelled: bool, exit_success: Option<bool>) -> (r: CommandResult)
    ensures
        cancelled ==> r == CommandResult::Cancelled,
        !cancelled ==> r == CommandResult::Completed(exit_success == Some(true)),
{
    if cancelled {
        CommandResult::Cancelled
    } else {
        match exit_success {
            Some(ok) => CommandResult::Completed(ok),
            None => CommandResult::Completed(false),
        }
    }
}

/// Messages from a running workflow to the interface.
#[derive(Debug, Clone)]
pub enum CommandMessage {
    Stdout(String),
    Stderr(String),
    StepComplete { step: String },
    StepFailed { step: String, error: ParsedError },
    StepSkipped { step: String },
    Done { success: bool },
    Cancelled,
    UpdatesAvailable { nixos_config: bool, app_profiles: bool, commits: Vec<(String, String)> },
    RebootRecommended { reasons: Vec<String> },
    CloneComplete { success: bool },
}

} // verus!
