//! The two refusals that the engine reports.

use vstd::prelude::*;

verus! {

/// Error returned when you try to trigger the shutdown multiple times on the same
/// [`ShutdownManager`](crate::ShutdownManager).
#[derive(Debug)]
#[non_exhaustive]
pub struct ShutdownAlreadyStarted<T> {
    /// The shutdown reason of the already started shutdown.
    pub shutdown_reason: T,
    /// The provided reason that was ignored because the shutdown was already started.
    pub ignored_reason: T,
}

impl<T> ShutdownAlreadyStarted<T> {
    /// The refusal of `ignored_reason` because of `shutdown_reason`.
    pub fn new(shutdown_reason: T, ignored_reason: T) -> (error: Self)
        ensures
            error.shutdown_reason == shutdown_reason,
            error.ignored_reason == ignored_reason,
    {
        Self { shutdown_reason, ignored_reason }
    }
}

impl<T: Clone> Clone for ShutdownAlreadyStarted<T> {
    fn clone(&self) -> (copy: Self)
        ensures
            cloned(self.shutdown_reason, copy.shutdown_reason),
            cloned(self.ignored_reason, copy.ignored_reason),
    {
        Self {
            shutdown_reason: self.shutdown_reason.clone(),
            ignored_reason: self.ignored_reason.clone(),
        }
    }
}

/// Error returned when trying to delay a shutdown that has already completed.
#[derive(Debug)]
#[non_exhaustive]
pub struct ShutdownAlreadyCompleted<T> {
    /// The shutdown reason of the already completed shutdown.
    pub shutdown_reason: T,
}

impl<T> ShutdownAlreadyCompleted<T> {
    /// The refusal to delay a shutdown that has completed for `shutdown_reason`.
    pub fn new(shutdown_reason: T) -> (error: Self)
        ensures
            error.shutdown_reason == shutdown_reason,
    {
        Self { shutdown_reason }
    }
}

} // verus!
