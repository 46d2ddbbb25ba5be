//! The daemon's error type.

use vstd::prelude::*;

verus! {

/// An error of the agent daemon.
#[derive(Debug)]
pub enum AgentdError {
    /// An exec session cannot be served, for the stated reason.
    ExecSession(String),
}

/// A result of the agent daemon.
pub type AgentdResult<T> = Result<T, AgentdError>;

impl AgentdError {
    /// The reason that the error states.
    pub open spec fn text(self) -> Seq<char> {
        match self {
            AgentdError::ExecSession(reason) => reason@,
        }
    }

    /// The reason that the error states.
    pub fn message(&self) -> (reason: &str)
        ensures
            reason@ == self.text(),
            *self matches AgentdError::ExecSession(stated) ==> reason@ == stated@,
    {
        match self {
            AgentdError::ExecSession(reason) => reason.as_str(),
        }
    }
}

/// Whether `result` is an error that states `text`.
pub open spec fn fails_with<T>(result: AgentdResult<T>, text: Seq<char>) -> bool {
    match result {
        Ok(_) => false,
        Err(error) => error.text() == text,
    }
}

} // verus!
