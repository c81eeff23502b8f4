//! The wrapper that races a future against the shutdown signal.

use vstd::prelude::*;
use std::future::Future;
use std::task::Waker;
use crate::shutdown_signal::ShutdownSignal;
use crate::waker_list::WakerTokenView;
use crate::ShutdownManager;

verus! {

/// Who wins the race between a future and the shutdown signal.
///
/// `future` is the wrapper's field: the future, or the reason for which it was dropped at an
/// earlier poll. `inner` is the future's value if it was ready at this poll, and `triggered`
/// is the reason of the shutdown if it has been triggered. The result is what the wrapper
/// resolves with, and `None` while it is pending.
///
/// A reason kept from an earlier poll wins over everything. Otherwise the future is asked
/// first: if it is ready, its value wins, also over a shutdown that was triggered before
/// the same poll. Only a pending future loses against the shutdown.
pub open spec fn race<T, F, O>(future: Result<F, T>, inner: Option<O>, triggered: Option<T>)
    -> Option<Result<O, T>> {
    match (future, inner, triggered) {
        (Err(kept), _, _) => Some(Err(kept)),
        (Ok(_), Some(value), _) => Some(Ok(value)),
        (Ok(_), None, Some(reason)) => Some(Err(reason)),
        (Ok(_), None, None) => None,
    }
}

/// `outcome` is `source`, but that a reason in it may be a clone of the one in `source`.
pub open spec fn cloned_outcome<T: Clone, O>(
    source: Option<Result<O, T>>,
    outcome: Option<Result<O, T>>,
) -> bool {
    match source {
        Some(Err(reason)) => outcome matches Some(Err(copy)) && cloned(reason, copy),
        _ => outcome == source,
    }
}

/// Wrapped future that is automatically cancelled when a shutdown is triggered.
///
/// The wrapped future is dropped when a shutdown is triggered before the future completes.
/// The wrapped future is *not* dropped if it completes before the shutdown signal is
/// received.
///
/// The engine does not poll the future itself. Whoever drives the wrapper polls the future
/// that [`WrapCancel::future_mut`] gives, if it gives one, and hands the outcome to
/// [`WrapCancel::poll_with`], which decides the race.
#[must_use]
pub struct WrapCancel<T, F> {
    shutdown_signal: ShutdownSignal<T>,
    future: Result<F, T>,
}

impl<T, F> WrapCancel<T, F> {
    /// The wrapped future, or the reason for which it was dropped.
    pub closed spec fn future(&self) -> Result<F, T> {
        self.future
    }

    /// The token that the wrapper's shutdown signal holds, if it holds one.
    pub closed spec fn token(&self) -> Option<WakerTokenView> {
        self.shutdown_signal.token()
    }

    /// Wrap `future` to race against `shutdown_signal`.
    pub(crate) fn new(shutdown_signal: ShutdownSignal<T>, future: F) -> (wrapped: Self)
        ensures
            wrapped.future() == Ok::<F, T>(future),
            wrapped.token() == shutdown_signal.token(),
    {
        Self { shutdown_signal, future: Ok(future) }
    }

    /// Check whether the wrapped future has been dropped because of a shutdown.
    pub fn is_cancelled(&self) -> (cancelled: bool)
        ensures
            cancelled == self.future() is Err,
    {
        self.future.is_err()
    }

    /// The wrapped future, to be polled in place, unless it has been dropped.
    pub fn future_mut(&mut self) -> (future: Option<&mut F>)
        ensures
            match old(self).future() {
                Ok(wrapped) => {
                    &&& future is Some
                    &&& *future->0 == wrapped
                    &&& final(self).future() == Ok::<F, T>(*final(future->0))
                    &&& final(self).token() == old(self).token()
                },
                Err(_) => future is None && *final(self) == *old(self),
            },
    {
        match &mut self.future {
            Ok(future) => Some(future),
            Err(_) => None,
        }
    }
}

impl<T: Clone, F: Future> WrapCancel<T, F> {
    /// Check whether [`WrapCancel::poll_with`] and [`WrapCancel::cancel`] may be called with
    /// this manager: the token that the wrapper holds, if any, is one that the manager
    /// accepts. It always is for the manager that the wrapper was made by.
    pub fn accepted_by(&self, manager: &ShutdownManager<T>) -> (accepted: bool)
        ensures
            accepted == manager@.on_trigger.accepts_stored(self.token()),
    {
        self.shutdown_signal.accepted_by(manager)
    }

    /// Decide the race, given what a poll of the wrapped future gave: `inner` holds its
    /// value if it was ready.
    ///
    /// * If the future has already been dropped for a shutdown, the wrapper resolves with
    ///   a clone of the reason kept, and nothing changes.
    /// * Else if the future was ready, the wrapper resolves with its value. The shutdown
    ///   signal is not consulted: a future that is ready wins over a shutdown that was
    ///   triggered before the same poll.
    /// * Else the shutdown signal is polled with `waker`. If it resolves, the future
    ///   leaves the wrapper, which keeps a clone of the reason in its place and resolves
    ///   with the reason. If not, the wrapper is pending.
    ///
    /// The second part of the result is the future that has just lost the race. It is
    /// handed to the caller to be dropped, so that the caller can first let go of whatever
    /// guards the manager: the destructor of a future may itself want the manager.
    pub fn poll_with(
        &mut self,
        manager: &mut ShutdownManager<T>,
        inner: Option<F::Output>,
        waker: Waker,
    ) -> (result: (Option<Result<F::Output, T>>, Option<F>))
        requires
            old(manager)@.wf(),
            old(manager)@.on_trigger.accepts_stored(old(self).token()),
        ensures
            cloned_outcome(race(old(self).future(), inner, old(manager)@.reason), result.0),
            final(manager)@.wf(),
            final(manager)@.on_trigger.accepts_stored(final(self).token()),
            // The shutdown signal is polled only if nothing else decided the race.
            old(self).future() is Ok && inner is None ==> {
                &&& final(manager)@ == old(manager)@.poll_triggered(old(self).token(), waker)
                &&& final(self).token() == old(manager)@.poll_triggered_token(old(self).token())
            },
            old(self).future() is Err || inner is Some ==> {
                &&& *final(manager) == *old(manager)
                &&& *final(self) == *old(self)
            },
            // The future leaves the wrapper exactly if the shutdown wins now, and a clone
            // of the reason that the wrapper resolves with is kept in its place.
            old(self).future() is Ok && inner is None && old(manager)@.triggered() ==> {
                &&& result.1 == Some(old(self).future()->Ok_0)
                &&& final(self).future() is Err
                &&& cloned(result.0->0->Err_0, final(self).future()->Err_0)
            },
            !(old(self).future() is Ok && inner is None && old(manager)@.triggered()) ==> {
                &&& result.1 is None
                &&& final(self).future() == old(self).future()
            },
    {
        match &self.future {
            Err(reason) => {
                return (Some(Err(reason.clone())), None);
            },
            Ok(_) => {},
        }
        if let Some(value) = inner {
            return (Some(Ok(value)), None);
        }
        // Otherwise check if the shutdown signal has been given.
        match self.shutdown_signal.poll(manager, waker) {
            Some(reason) => {
                let mut lost: Result<F, T> = Err(reason.clone());
                std::mem::swap(&mut self.future, &mut lost);
                (Some(Err(reason)), lost.ok())
            },
            None => (None, None),
        }
    }

    /// Withdraw the registration of the wrapper's shutdown signal, if it holds one.
    ///
    /// This is to be called when the wrapper is discarded.
    pub fn cancel(&mut self, manager: &mut ShutdownManager<T>)
        requires
            old(manager)@.wf(),
            old(manager)@.on_trigger.accepts_stored(old(self).token()),
        ensures
            final(manager)@ == old(manager)@.cancel_triggered(old(self).token()),
            final(self).token() is None,
            final(self).future() == old(self).future(),
            final(manager)@.wf(),
    {
        self.shutdown_signal.cancel(manager);
    }
}

} // verus!
