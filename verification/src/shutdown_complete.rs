//! The observer that waits for the shutdown to complete.

use vstd::prelude::*;
use std::marker::PhantomData;
use std::task::Waker;
use crate::state::cloned_option;
use crate::waker_list::{WakerToken, WakerTokenView};
use crate::ShutdownManager;

verus! {

/// An observer that waits for a shutdown to complete.
///
/// It resolves when the [`ShutdownManager`] it is polled against has triggered a shutdown
/// and counts no delay token. While it is pending it holds the token of the waker that it
/// left with the manager.
pub struct ShutdownComplete<T> {
    waker_token: Option<WakerToken>,
    marker: PhantomData<T>,
}

impl<T> ShutdownComplete<T> {
    /// The token of the registration that the observer holds, if it holds one.
    pub closed spec fn token(&self) -> Option<WakerTokenView> {
        match self.waker_token {
            Some(token) => Some(token@),
            None => None,
        }
    }

    /// An observer that holds no token.
    pub(crate) fn new() -> (observer: Self)
        ensures
            observer.token() is None,
    {
        Self { waker_token: None, marker: PhantomData }
    }

    /// Check whether the observer holds the token of a registration.
    pub fn is_registered(&self) -> (registered: bool)
        ensures
            registered == self.token() is Some,
    {
        self.waker_token.is_some()
    }
}

impl<T> Clone for ShutdownComplete<T> {
    /// Make a fresh observer. The token is personal to each observer and is not copied:
    /// the clone registers for itself when it is first polled.
    fn clone(&self) -> (observer: Self)
        ensures
            observer.token() is None,
    {
        Self { waker_token: None, marker: PhantomData }
    }
}

impl<T: Clone> ShutdownComplete<T> {
    /// Check whether [`Self::poll`] and [`Self::cancel`] may be called with this manager:
    /// the token that the observer holds, if any, is one that the manager accepts. It
    /// always is for the manager that the observer was polled against before.
    pub fn accepted_by(&self, manager: &ShutdownManager<T>) -> (accepted: bool)
        ensures
            accepted == manager@.on_complete.accepts_stored(self.token()),
    {
        match &self.waker_token {
            Some(token) => manager.on_shutdown_complete.accepts(token),
            None => true,
        }
    }

    /// Poll the observer.
    ///
    /// A registration left by an earlier poll is withdrawn first. Then, if the shutdown has
    /// completed, the observer resolves with a clone of the reason. Otherwise `waker` is
    /// left with the manager, the observer keeps its token, and the poll is pending.
    pub fn poll(&mut self, manager: &mut ShutdownManager<T>, waker: Waker) -> (ready: Option<T>)
        requires
            old(manager)@.wf(),
            old(manager)@.on_complete.accepts_stored(old(self).token()),
        ensures
            cloned_option(old(manager)@.completion(), ready),
            final(manager)@ == old(manager)@.poll_completed(old(self).token(), waker),
            final(self).token() == old(manager)@.poll_completed_token(old(self).token()),
            final(manager)@.wf(),
            final(manager)@.on_complete.accepts_stored(final(self).token()),
    {
        proof {
            manager@.lemma_poll_completed(self.token(), waker);
        }
        // We're being polled, so we should deregister the waker (if any).
        if let Some(token) = self.waker_token.take() {
            manager.on_shutdown_complete.deregister(token);
        }
        // Check if the shutdown is completed.
        if manager.delay_tokens == 0 {
            if let Some(reason) = manager.shutdown_reason.clone() {
                return Some(reason);
            }
        }
        // We're not ready, so register the waker to wake us on shutdown completion.
        self.waker_token = Some(manager.on_shutdown_complete.register(waker));
        None
    }

    /// Withdraw the registration, if the observer holds one.
    ///
    /// This is to be called when the observer is discarded before it has resolved: without
    /// it the manager would keep the waker of an observer that no longer exists.
    pub fn cancel(&mut self, manager: &mut ShutdownManager<T>)
        requires
            old(manager)@.wf(),
            old(manager)@.on_complete.accepts_stored(old(self).token()),
        ensures
            final(manager)@ == old(manager)@.cancel_completed(old(self).token()),
            final(self).token() is None,
            final(manager)@.wf(),
    {
        proof {
            manager@.lemma_poll_completed(self.token(), arbitrary());
        }
        if let Some(token) = self.waker_token.take() {
            manager.on_shutdown_complete.deregister(token);
        }
    }
}

} // verus!
