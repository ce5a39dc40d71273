//! The failures that callers of the runner can see.

use vstd::prelude::*;
use vstd::string::*;

verus! {

/// Why a call could not be served.
///
/// A failed prediction is not among them: it is an answer, carried by the
/// response of the one request that caused it.
#[derive(Debug, Clone)]
pub enum RunnerError {
    /// The worker's setup failed, with the reason it gave. Permanent.
    SetupFailed(String),
    /// The worker loop is gone: its queue or its transport is closed.
    WorkerUnavailable,
    /// The worker's setup still runs, and the caller chose not to wait.
    NotReady,
}

impl RunnerError {
    /// What `message` renders, as a sequence of characters.
    pub open spec fn message_spec(self) -> Seq<char> {
        match self {
            RunnerError::SetupFailed(reason) => "Setup failed: "@ + reason@,
            RunnerError::WorkerUnavailable => "channel closed"@,
            RunnerError::NotReady => "Setup has not finished"@,
        }
    }

    /// The error as text, for logs and response bodies.
    pub fn message(&self) -> (text: String)
        ensures
            text@ == self.message_spec(),
    {
        match self {
            RunnerError::SetupFailed(reason) => {
                String::from_str("Setup failed: ").concat(reason.as_str())
            },
            RunnerError::WorkerUnavailable => String::from_str("channel closed"),
            RunnerError::NotReady => String::from_str("Setup has not finished"),
        }
    }
}

} // verus!
