//! The wrapper that triggers a shutdown when a future stops.

use vstd::prelude::*;
use std::future::Future;
use crate::{ShutdownManager, TriggerShutdownToken};

verus! {

/// Wrapped future that triggers a shutdown when it completes or is abandoned.
///
/// The engine does not poll the future itself. Whoever drives the wrapper polls the future
/// that [`WrapTriggerShutdown::future_mut`] gives and hands the outcome to
/// [`WrapTriggerShutdown::poll_with`].
#[must_use]
pub struct WrapTriggerShutdown<T, F> {
    trigger_shutdown_token: Option<TriggerShutdownToken<T>>,
    future: F,
}

impl<T, F> WrapTriggerShutdown<T, F> {
    /// The wrapped future.
    pub closed spec fn future(&self) -> F {
        self.future
    }

    /// The reason that the wrapper triggers the shutdown with when the future stops: the
    /// reason of its token, while it holds a token that is not spent.
    pub closed spec fn reason(&self) -> Option<T> {
        match self.trigger_shutdown_token {
            Some(token) => token.reason(),
            None => None,
        }
    }

    /// Wrap `future` to trigger a shutdown by means of `trigger_shutdown_token`.
    pub(crate) fn new(trigger_shutdown_token: TriggerShutdownToken<T>, future: F) -> (wrapped:
        Self)
        ensures
            wrapped.future() == future,
            wrapped.reason() == trigger_shutdown_token.reason(),
    {
        Self { trigger_shutdown_token: Some(trigger_shutdown_token), future }
    }

    /// The wrapped future, to be polled in place.
    pub fn future_mut(&mut self) -> (future: &mut F)
        ensures
            *future == old(self).future(),
            final(self).future() == *final(future),
            final(self).reason() == old(self).reason(),
    {
        &mut self.future
    }
}

impl<T: Clone, F: Future> WrapTriggerShutdown<T, F> {
    /// Check whether the wrapper holds a token that is not spent.
    pub fn is_armed(&self) -> (armed: bool)
        ensures
            armed == self.reason() is Some,
    {
        match &self.trigger_shutdown_token {
            Some(token) => token.is_armed(),
            None => false,
        }
    }

    /// Pass on what a poll of the wrapped future gave: `inner` holds its value if it was
    /// ready.
    ///
    /// When the future is ready the token is released, which triggers the shutdown, before
    /// the value is returned. While it is pending nothing changes.
    pub fn poll_with(
        &mut self,
        manager: &mut ShutdownManager<T>,
        inner: Option<F::Output>,
    ) -> (outcome: Option<F::Output>)
        requires
            old(manager)@.wf(),
        ensures
            outcome == inner,
            final(manager)@.wf(),
            final(self).future() == old(self).future(),
            match inner {
                Some(_) => {
                    &&& final(self).reason() is None
                    &&& final(manager)@ == old(manager)@.fire(old(self).reason())
                },
                None => *final(self) == *old(self) && *final(manager) == *old(manager),
            },
    {
        if inner.is_some() {
            self.abandon(manager);
        }
        inner
    }

    /// Release the token, if the wrapper still holds it.
    ///
    /// This is to be called when the wrapper is discarded, so that the shutdown is
    /// triggered whether the wrapped future finishes or is abandoned.
    pub fn abandon(&mut self, manager: &mut ShutdownManager<T>)
        requires
            old(manager)@.wf(),
        ensures
            final(self).reason() is None,
            final(self).future() == old(self).future(),
            final(manager)@ == old(manager)@.fire(old(self).reason()),
            final(manager)@.wf(),
    {
        if let Some(mut token) = self.trigger_shutdown_token.take() {
            token.release(manager);
        }
    }
}

} // verus!
