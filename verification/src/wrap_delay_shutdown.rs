//! The wrapper that delays shutdown completion for as long as a future runs.

use vstd::prelude::*;
use std::future::Future;
use crate::state::ShutdownState;
use crate::{DelayShutdownToken, ShutdownManager};

verus! {

/// Wrapped future that delays shutdown completion until it completes or until it is
/// abandoned.
///
/// The engine does not poll the future itself. Whoever drives the wrapper polls the future
/// that [`WrapDelayShutdown::future_mut`] gives and hands the outcome to
/// [`WrapDelayShutdown::poll_with`].
#[must_use]
pub struct WrapDelayShutdown<T, F> {
    delay_token: Option<DelayShutdownToken<T>>,
    future: F,
}

impl<T, F> WrapDelayShutdown<T, F> {
    /// The wrapped future.
    pub closed spec fn future(&self) -> F {
        self.future
    }

    /// The wrapper still holds its delay token.
    pub closed spec fn holds_token(&self) -> bool {
        self.delay_token is Some
    }

    /// Wrap `future` to delay the shutdown by means of `delay_token`.
    pub(crate) fn new(delay_token: DelayShutdownToken<T>, future: F) -> (wrapped: Self)
        ensures
            wrapped.future() == future,
            wrapped.holds_token(),
    {
        Self { delay_token: Some(delay_token), future }
    }

    /// Check whether the wrapper still holds its delay token.
    pub fn is_delaying(&self) -> (delaying: bool)
        ensures
            delaying == self.holds_token(),
    {
        self.delay_token.is_some()
    }

    /// The wrapped future, to be polled in place.
    pub fn future_mut(&mut self) -> (future: &mut F)
        ensures
            *future == old(self).future(),
            final(self).future() == *final(future),
            final(self).holds_token() == old(self).holds_token(),
    {
        &mut self.future
    }
}

impl<T: Clone, F: Future> WrapDelayShutdown<T, F> {
    /// The state of the manager after the wrapper has let go of its token, if it still
    /// holds it.
    pub open spec fn released(&self, state: ShutdownState<T>) -> ShutdownState<T> {
        if self.holds_token() {
            state.release_delay()
        } else {
            state
        }
    }

    /// Pass on what a poll of the wrapped future gave: `inner` holds its value if it was
    /// ready.
    ///
    /// When the future is ready the delay token is released before the value is returned.
    /// While it is pending nothing changes.
    pub fn poll_with(
        &mut self,
        manager: &mut ShutdownManager<T>,
        inner: Option<F::Output>,
    ) -> (outcome: Option<F::Output>)
        requires
            old(manager)@.wf(),
            old(self).holds_token() ==> old(manager)@.delay_count >= 1,
        ensures
            outcome == inner,
            final(manager)@.wf(),
            final(self).future() == old(self).future(),
            match inner {
                Some(_) => {
                    &&& !final(self).holds_token()
                    &&& final(manager)@ == old(self).released(old(manager)@)
                },
                None => *final(self) == *old(self) && *final(manager) == *old(manager),
            },
    {
        if inner.is_some() {
            self.abandon(manager);
        }
        inner
    }

    /// Release the delay token, if the wrapper still holds it.
    ///
    /// This is to be called when the wrapper is discarded, so that the token's effect ends
    /// whether the wrapped future finishes or is abandoned.
    pub fn abandon(&mut self, manager: &mut ShutdownManager<T>)
        requires
            old(manager)@.wf(),
            old(self).holds_token() ==> old(manager)@.delay_count >= 1,
        ensures
            !final(self).holds_token(),
            final(self).future() == old(self).future(),
            final(manager)@ == old(self).released(old(manager)@),
            final(manager)@.wf(),
    {
        if let Some(token) = self.delay_token.take() {
            token.release(manager);
        }
    }
}

} // verus!
