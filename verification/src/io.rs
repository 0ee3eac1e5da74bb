//! Failures of the operating system, as far as the locker tells them apart.

use vstd::prelude::*;

verus! {

/// The kinds of failure that the locker treats differently.
#[derive(Debug, Clone, Copy, PartialEq, Eq)]
pub enum IoKind {
    /// The file or directory does not exist.
    NotFound,
    /// A signal interrupted the call before it did anything.
    Interrupted,
    /// Any other failure.
    Other,
}

/// A failed call of the operating system.
#[derive(Debug, Clone)]
pub struct IoFailure {
    pub kind: IoKind,
    /// What the operating system said.
    pub message: String,
}

/// What to do after one attempt at a call that a signal may interrupt.
#[derive(Debug)]
pub enum Attempt<T> {
    /// The call went through with this value.
    Done(T),
    /// The call was interrupted: make it again.
    Retry,
    /// The call failed for good.
    Failed(IoFailure),
}

/// What follows from the result of one attempt: an interrupted call is made
/// again, every other result stands.
pub open spec fn spec_retry_on_interrupt<T>(result: Result<T, IoFailure>) -> Attempt<T> {
    match result {
        Ok(value) => Attempt::Done(value),
        Err(failure) => if failure.kind is Interrupted {
            Attempt::Retry
        } else {
            Attempt::Failed(failure)
        },
    }
}

/// Decides from the result of one attempt at a call whether the call is to
/// be made again. The caller repeats the call as long as this says `Retry`,
/// so that an interruption never comes to the surface.
pub fn retry_on_interrupt<T>(result: Result<T, IoFailure>) -> (next: Attempt<T>)
    ensures
        next == spec_retry_on_interrupt(result),
{
    match result {
        Ok(value) => Attempt::Done(value),
        Err(failure) => match failure.kind {
            IoKind::Interrupted => Attempt::Retry,
            _ => Attempt::Failed(failure),
        },
    }
}

} // verus!
