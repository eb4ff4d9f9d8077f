//! The parts of tokio's task results that the library reads.

use vstd::prelude::*;
use tokio::task::JoinError as TaskJoinError;

verus! {

#[verifier::external_type_specification]
#[verifier::external_body]
pub struct ExTokioJoinError(TaskJoinError);

/// How a task failed to join. tokio's `JoinError` has exactly these two
/// kinds: the task was cancelled, or it panicked.
#[derive(Clone, Copy, Debug, PartialEq, Eq, Structural)]
pub enum JoinFailure {
    Cancelled,
    Panicked,
}

/// The kind of a tokio task error: `Cancelled` where
/// `JoinError::is_cancelled` holds of it, else `Panicked`. It is a function
/// of the error value alone (the kind is fixed when tokio makes the error).
pub uninterp spec fn tokio_join_failure(e: TaskJoinError) -> JoinFailure;

/// Tells the two kinds of `tokio::task::JoinError` apart with
/// `JoinError::is_cancelled`: a cancelled task's error is `Cancelled`, any
/// other is `Panicked` (the error's only other kind). The result is the
/// error's kind, `tokio_join_failure`; which kind a given error has is not
/// stated, as the error is opaque here.
#[verifier::external_body]
pub(crate) fn join_failure_of(e: &TaskJoinError) -> (r: JoinFailure)
    ensures
        r == tokio_join_failure(*e),
{
    if e.is_cancelled() {
        JoinFailure::Cancelled
    } else {
        JoinFailure::Panicked
    }
}

} // verus!
