//! The outcome of running the command once.

use vstd::prelude::*;
use vstd::string::StringExecFns;

use crate::decimal::{int_text, int_to_text};

verus! {

/// What happened to one attempt to run the command, as the operating system
/// reported it.
#[derive(Debug)]
pub enum Launch {
    /// The process could not be started; the text describes why.
    SpawnFailed(String),
    /// The process ran and ended, with its exit code where it has one (a
    /// process ended by a signal has none).
    Exited(Option<i32>),
}

/// Why a run counts as a failure.
#[derive(Debug)]
pub enum RunError {
    /// The process could not be started; the text describes why.
    SpawnFailure(String),
    /// The process ran and ended unsuccessfully, with this exit code, if any.
    ExecutionFailure(Option<i32>),
}

/// A run succeeds when the process starts and exits with code zero.
pub open spec fn outcome_of(launch: Launch) -> Result<(), RunError> {
    match launch {
        Launch::SpawnFailed(e) => Err(RunError::SpawnFailure(e)),
        Launch::Exited(Some(0)) => Ok(()),
        Launch::Exited(code) => Err(RunError::ExecutionFailure(code)),
    }
}

/// Classifies one attempt to run the command as a success or a failure.
pub fn outcome(launch: Launch) -> (r: Result<(), RunError>)
    ensures
        r == outcome_of(launch),
{
    match launch {
        Launch::SpawnFailed(e) => Err(RunError::SpawnFailure(e)),
        Launch::Exited(code) => match code {
            Some(0) => Ok(()),
            _ => Err(RunError::ExecutionFailure(code)),
        },
    }
}

impl RunError {
    pub open spec fn spec_message(&self) -> Seq<char> {
        match self {
            RunError::SpawnFailure(e) => "Failed to execute command: "@ + e@,
            RunError::ExecutionFailure(Some(c)) => "Command failed with exit code: "@ + int_text(
                *c as int,
            ),
            RunError::ExecutionFailure(None) => "Command failed: terminated by a signal"@,
        }
    }

    /// A sentence that describes the failure.
    pub fn message(&self) -> (r: String)
        ensures
            r@ == self.spec_message(),
    {
        match self {
            RunError::SpawnFailure(e) => String::from_str("Failed to execute command: ").concat(
                e.as_str(),
            ),
            RunError::ExecutionFailure(Some(c)) => {
                let code = int_to_text(*c);
                String::from_str("Command failed with exit code: ").concat(code.as_str())
            },
            RunError::ExecutionFailure(None) => String::from_str(
                "Command failed: terminated by a signal",
            ),
        }
    }
}

} // verus!
