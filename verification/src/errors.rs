//! The failures that end an invocation. Only a configuration error or a
//! failure of the one search request is fatal; per-item download trouble is
//! absorbed inside the batch and never reaches the exit code.

use crate::config::ConfigError;
use vstd::prelude::*;

verus! {

/// The single search request failed: transport trouble, a non-success
/// status, or a body that did not hold the expected JSON shape (including a
/// missing `items` field). Fatal for the invocation; there is no retry and
/// no partial result.
#[derive(Debug, Clone)]
pub enum SearchError {
    Transport { message: String },
    BadStatus { message: String },
    Malformed { message: String },
}

impl SearchError {
    /// The diagnostic carried by the failure, whichever category it is.
    pub fn message(&self) -> (r: String)
        ensures
            *self matches SearchError::Transport { message } ==> r@ == message@,
            *self matches SearchError::BadStatus { message } ==> r@ == message@,
            *self matches SearchError::Malformed { message } ==> r@ == message@,
    {
        match self {
            SearchError::Transport { message } => message.clone(),
            SearchError::BadStatus { message } => message.clone(),
            SearchError::Malformed { message } => message.clone(),
        }
    }
}

/// Everything that can make the process fail.
#[derive(Debug)]
pub enum RunError {
    Config(ConfigError),
    Search(SearchError),
}

/// The process exit code: zero exactly when no fatal error occurred. Batch
/// download outcomes are no input here — they can never fail the process.
pub fn exit_code(outcome: &Result<(), RunError>) -> (r: i32)
    ensures
        (r == 0) <==> *outcome is Ok,
        *outcome is Err ==> r == 1,
{
    match outcome {
        Ok(_) => 0,
        Err(_) => 1,
    }
}

} // verus!
