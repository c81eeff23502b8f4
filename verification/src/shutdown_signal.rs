//! The observer that waits for the shutdown to be triggered.

use vstd::prelude::*;
use std::future::Future;
use std::marker::PhantomData;
use std::task::Waker;
use crate::state::cloned_option;
use crate::waker_list::{WakerToken, WakerTokenView};
use crate::wrap_cancel::WrapCancel;
use crate::ShutdownManager;

verus! {

/// An observer that waits for a shutdown signal.
///
/// It resolves when the [`ShutdownManager`] it is polled against has triggered a shutdown.
/// While it is pending it holds the token of the waker that it left with the manager.
pub struct ShutdownSignal<T> {
    waker_token: Option<WakerToken>,
    marker: PhantomData<T>,
}

impl<T> ShutdownSignal<T> {
    /// The token of the registration that the observer holds, if it holds one.
    pub closed spec fn token(&self) -> Option<WakerTokenView> {
        match self.waker_token {
            Some(token) => Some(token@),
            None => None,
        }
    }

    /// An observer that holds no token.
    pub(crate) fn new() -> (observer: Self)
        ensures
            observer.token() is None,
    {
        Self { waker_token: None, marker: PhantomData }
    }

    /// Check whether the observer holds the token of a registration.
    pub fn is_registered(&self) -> (registered: bool)
        ensures
            registered == self.token() is Some,
    {
        self.waker_token.is_some()
    }
}

impl<T> Clone for ShutdownSignal<T> {
    /// Make a fresh observer. The token is personal to each observer and is not copied:
    /// the clone registers for itself when it is first polled.
    fn clone(&self) -> (signal: Self)
        ensures
            signal.token() is None,
    {
        Self { waker_token: None, marker: PhantomData }
    }
}

impl<T: Clone> ShutdownSignal<T> {
    /// Wrap a future so that it is cancelled when a shutdown is triggered.
    ///
    /// The wrapper resolves with `Err(reason)` if a shutdown is triggered, and with `Ok(x)`
    /// when the wrapped future completes. The wrapped future is dropped if the shutdown
    /// starts before the wrapped future completes.
    pub fn wrap_cancel<F: Future>(&self, future: F) -> (wrapped: WrapCancel<T, F>)
        ensures
            wrapped.future() == Ok::<F, T>(future),
            wrapped.token() is None,
    {
        WrapCancel::new(self.clone(), future)
    }

    /// Check whether [`Self::poll`] and [`Self::cancel`] may be called with this manager:
    /// the token that the observer holds, if any, is one that the manager accepts. It
    /// always is for the manager that the observer was polled against before.
    pub fn accepted_by(&self, manager: &ShutdownManager<T>) -> (accepted: bool)
        ensures
            accepted == manager@.on_trigger.accepts_stored(self.token()),
    {
        match &self.waker_token {
            Some(token) => manager.on_shutdown.accepts(token),
            None => true,
        }
    }

    /// Poll the observer.
    ///
    /// A registration left by an earlier poll is withdrawn first. Then, if the shutdown has
    /// been triggered, the observer resolves with a clone of the reason. Otherwise `waker`
    /// is left with the manager, the observer keeps its token, and the poll is pending.
    pub fn poll(&mut self, manager: &mut ShutdownManager<T>, waker: Waker) -> (ready: Option<T>)
        requires
            old(manager)@.wf(),
            old(manager)@.on_trigger.accepts_stored(old(self).token()),
        ensures
            cloned_option(old(manager)@.reason, ready),
            final(manager)@ == old(manager)@.poll_triggered(old(self).token(), waker),
            final(self).token() == old(manager)@.poll_triggered_token(old(self).token()),
            final(manager)@.wf(),
            final(manager)@.on_trigger.accepts_stored(final(self).token()),
    {
        proof {
            manager@.lemma_poll_triggered(self.token(), waker);
        }
        // We're being polled, so we should deregister the waker (if any).
        if let Some(token) = self.waker_token.take() {
            manager.on_shutdown.deregister(token);
        }
        if let Some(reason) = manager.shutdown_reason.clone() {
            // Shutdown started, so we're ready.
            Some(reason)
        } else {
            // We're not ready, so register the waker to wake us on shutdown start.
            self.waker_token = Some(manager.on_shutdown.register(waker));
            None
        }
    }

    /// Withdraw the registration, if the observer holds one.
    ///
    /// This is to be called when the observer is discarded before it has resolved: without
    /// it the manager would keep the waker of an observer that no longer exists.
    pub fn cancel(&mut self, manager: &mut ShutdownManager<T>)
        requires
            old(manager)@.wf(),
            old(manager)@.on_trigger.accepts_stored(old(self).token()),
        ensures
            final(manager)@ == old(manager)@.cancel_triggered(old(self).token()),
            final(self).token() is None,
            final(manager)@.wf(),
    {
        proof {
            manager@.lemma_poll_triggered(self.token(), arbitrary());
        }
        if let Some(token) = self.waker_token.take() {
            manager.on_shutdown.deregister(token);
        }
    }
}

} // verus!
