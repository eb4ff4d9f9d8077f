//! A wrapper that gives tokio's `JoinError` an error message.

use vstd::prelude::*;
use super::task::{join_failure_of, tokio_join_failure, JoinFailure};

verus! {

/// The message for a task that failed to join, by how it failed.
pub open spec fn spec_join_failure_message(failure: JoinFailure) -> Seq<char> {
    match failure {
        JoinFailure::Cancelled => "Task failed to join, the task was cancelled"@,
        JoinFailure::Panicked => "Task failed to join, the task panicked"@,
    }
}

/// The message for a task that failed to join, by how it failed.
pub fn join_failure_message(failure: JoinFailure) -> (s: &'static str)
    ensures
        s@ == spec_join_failure_message(failure),
{
    match failure {
        JoinFailure::Cancelled => "Task failed to join, the task was cancelled",
        JoinFailure::Panicked => "Task failed to join, the task panicked",
    }
}

/// A task that failed to join, as an error with a message and no source.
#[derive(Debug)]
pub struct JoinError {
    pub join_error: tokio::task::JoinError,
    /// How the task failed, as tokio reports it.
    pub failure: JoinFailure,
}

impl JoinError {
    /// Wraps tokio's error, reading how the task failed.
    pub fn new(join_error: tokio::task::JoinError) -> (e: JoinError)
        ensures
            e.join_error == join_error,
            e.failure == tokio_join_failure(join_error),
    {
        let failure = join_failure_of(&join_error);
        JoinError { join_error, failure }
    }

    /// The error's message: a cancelled task's, or a panicked task's.
    pub fn message(&self) -> (s: &'static str)
        ensures
            s@ == spec_join_failure_message(self.failure),
    {
        join_failure_message(self.failure)
    }
}

} // verus!
