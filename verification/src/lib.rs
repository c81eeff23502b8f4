//! A verified engine for graceful shutdown of asynchronous tasks.
//!
//! The engine answers three questions for a program made of many tasks:
//! * Has a shutdown been requested, and why?
//! * Which tasks are to be told when it is?
//! * Is every task that asked for time to clean up done, so that the shutdown is complete?
//!
//! All of it is kept by the [`ShutdownManager`]. The manager is a plain value: it makes no
//! scheduling decision and takes no lock. A program shares it between its tasks behind a lock
//! of its choice, and calls the engine while it holds that lock. What a task would do by
//! dropping a value is done here by an explicit call that is handed the manager:
//! [`DelayShutdownToken::release`], [`TriggerShutdownToken::release`],
//! [`ShutdownSignal::cancel`] and their like.
//!
//! # Stopping running futures
//! [`ShutdownManager::wait_shutdown_triggered()`] gives an observer, [`ShutdownSignal`], that
//! is polled with a waker: it resolves with the reason once the shutdown is triggered, and
//! until then leaves the waker with the manager, which wakes it on
//! [`ShutdownManager::trigger_shutdown()`]. [`ShutdownManager::wrap_cancel()`] races a future
//! against that signal.
//!
//! # Waiting for futures to complete
//! [`ShutdownManager::wait_shutdown_complete()`] gives an observer that resolves when the
//! shutdown is complete: triggered, and no [`DelayShutdownToken`] left.
//! [`ShutdownManager::delay_shutdown_token()`] hands such tokens out for as long as the
//! shutdown has not completed, and [`ShutdownManager::wrap_delay_shutdown()`] ties one to a
//! future.
//!
//! # Automatically triggering shutdowns
//! A [`TriggerShutdownToken`] triggers the shutdown with the reason it was made with when it
//! is released, once. [`ShutdownManager::wrap_trigger_shutdown()`] ties one to a future.
//!
//! # What is proved
//! Every function states what it returns and how it changes the manager, over the
//! mathematical model in [`state`]. The laws of the state machine are proved there and in
//! [`laws`]: a reason is set once and for ever, a completed shutdown stays completed, and the
//! waker lists do not grow when waiters come and go one after the other.

use vstd::prelude::*;
use std::future::Future;
use std::marker::PhantomData;

pub mod error;
pub mod laws;
pub mod shutdown_complete;
pub mod shutdown_signal;
pub mod state;
pub mod waker;
pub mod waker_list;
pub mod wrap_cancel;
pub mod wrap_delay_shutdown;
pub mod wrap_trigger_shutdown;

pub use error::{ShutdownAlreadyCompleted, ShutdownAlreadyStarted};
pub use shutdown_complete::ShutdownComplete;
pub use shutdown_signal::ShutdownSignal;
pub use state::{cloned_option, Event, ShutdownState};
pub use waker_list::{ListEvent, WakerList, WakerListView, WakerToken, WakerTokenView};
pub use wrap_cancel::WrapCancel;
pub use wrap_delay_shutdown::WrapDelayShutdown;
pub use wrap_trigger_shutdown::WrapTriggerShutdown;

verus! {

/// Shutdown manager for asynchronous tasks and futures.
///
/// The shutdown manager allows you to:
/// * Signal futures to shutdown or forcibly cancel them (by dropping them).
/// * Wait for futures to perform their clean-up after a shutdown was triggered.
/// * Retrieve the shutdown reason after the shutdown was triggered.
pub struct ShutdownManager<T> {
    /// The shutdown reason.
    shutdown_reason: Option<T>,
    /// Number of delay tokens in existence.
    ///
    /// Must reach 0 before shutdown can complete.
    delay_tokens: usize,
    /// Tasks to wake when a shutdown is triggered.
    on_shutdown: WakerList,
    /// Tasks to wake when the shutdown is complete.
    on_shutdown_complete: WakerList,
}

impl<T> View for ShutdownManager<T> {
    type V = ShutdownState<T>;

    closed spec fn view(&self) -> ShutdownState<T> {
        ShutdownState {
            reason: self.shutdown_reason,
            delay_count: self.delay_tokens as nat,
            on_trigger: self.on_shutdown@,
            on_complete: self.on_shutdown_complete@,
        }
    }
}

impl<T: Clone> ShutdownManager<T> {
    /// Create a new shutdown manager.
    pub fn new() -> (manager: Self)
        ensures
            manager@ == ShutdownState::<T>::initial(),
            manager@.wf(),
    {
        Self {
            shutdown_reason: None,
            delay_tokens: 0,
            on_shutdown_complete: WakerList::new(),
            on_shutdown: WakerList::new(),
        }
    }

    /// Check if the shutdown has been triggered.
    pub fn is_shutdown_triggered(&self) -> (triggered: bool)
        ensures
            triggered == self@.triggered(),
    {
        self.shutdown_reason.is_some()
    }

    /// Check if the shutdown has completed.
    pub fn is_shutdown_completed(&self) -> (completed: bool)
        ensures
            completed == self@.completed(),
    {
        self.shutdown_reason.is_some() && self.delay_tokens == 0
    }

    /// Get the shutdown reason, if the shutdown has been triggered.
    ///
    /// Returns [`None`] if the shutdown has not been triggered yet.
    pub fn shutdown_reason(&self) -> (reason: Option<T>)
        ensures
            cloned_option(self@.reason, reason),
    {
        self.shutdown_reason.clone()
    }

    /// Get the number of delay tokens in existence.
    pub fn delay_count(&self) -> (count: usize)
        ensures
            count == self@.delay_count,
    {
        self.delay_tokens
    }

    /// The wakers of the observers that wait for the shutdown to be triggered.
    pub fn on_shutdown(&self) -> (list: &WakerList)
        ensures
            list@ == self@.on_trigger,
    {
        &self.on_shutdown
    }

    /// The wakers of the observers that wait for the shutdown to complete.
    pub fn on_shutdown_complete(&self) -> (list: &WakerList)
        ensures
            list@ == self@.on_complete,
    {
        &self.on_shutdown_complete
    }

    /// Get an observer that waits for the shutdown to be triggered.
    ///
    /// The observer is polled against this manager. If the shutdown is already triggered,
    /// its first poll resolves.
    ///
    /// You can also use `ShutdownSignal::wrap_cancel()` of the returned object
    /// to automatically cancel a future when the shutdown signal is received.
    /// This is identical to `Self::wrap_cancel()`.
    pub fn wait_shutdown_triggered(&self) -> (signal: ShutdownSignal<T>)
        ensures
            signal.token() is None,
    {
        ShutdownSignal::new()
    }

    /// Get an observer that waits for the shutdown to complete.
    ///
    /// The observer is polled against this manager.
    ///
    /// The shutdown is complete when it has been triggered, all [`DelayShutdownToken`] are
    /// released and all [`WrapDelayShutdown`] futures have completed or are abandoned.
    pub fn wait_shutdown_complete(&self) -> (observer: ShutdownComplete<T>)
        ensures
            observer.token() is None,
    {
        ShutdownComplete::new()
    }

    /// Trigger the shutdown.
    ///
    /// This wakes every [`ShutdownSignal`] and [`WrapCancel`] that waits on this manager, and
    /// the next poll resolves them.
    ///
    /// The shutdown will not be considered complete until all
    /// [`DelayShutdownTokens`][DelayShutdownToken] are released.
    ///
    /// If the shutdown was already started, this function returns an error that holds a
    /// clone of the reason in force and the reason that was handed in, and changes nothing.
    pub fn trigger_shutdown(&mut self, reason: T) -> (result: Result<
        (),
        ShutdownAlreadyStarted<T>,
    >)
        requires
            old(self)@.wf(),
        ensures
            final(self)@ == old(self)@.trigger(reason),
            final(self)@.wf(),
            result is Ok <==> !old(self)@.triggered(),
            result matches Err(error) ==> cloned(old(self)@.reason->0, error.shutdown_reason)
                && error.ignored_reason == reason,
    {
        proof {
            self@.lemma_step(Event::Trigger { reason });
        }
        match &self.shutdown_reason {
            Some(existing_reason) => {
                Err(ShutdownAlreadyStarted::new(existing_reason.clone(), reason))
            },
            None => {
                self.shutdown_reason = Some(reason);
                self.on_shutdown.wake_all();
                if self.delay_tokens == 0 {
                    self.notify_shutdown_complete()
                }
                Ok(())
            },
        }
    }

    /// Wrap a future so that it is cancelled (dropped) when the shutdown is triggered.
    ///
    /// The wrapper resolves with `Err(shutdown_reason)` if the shutdown is triggered,
    /// and with `Ok(x)` if the wrapped future completes first.
    pub fn wrap_cancel<F: Future>(&self, future: F) -> (wrapped: WrapCancel<T, F>)
        ensures
            wrapped.future() == Ok::<F, T>(future),
            wrapped.token() is None,
    {
        self.wait_shutdown_triggered().wrap_cancel(future)
    }

    /// Wrap a future to cause a shutdown when the future completes or when it is
    /// abandoned.
    pub fn wrap_trigger_shutdown<F: Future>(&self, shutdown_reason: T, future: F) -> (wrapped:
        WrapTriggerShutdown<T, F>)
        ensures
            wrapped.future() == future,
            wrapped.reason() == Some(shutdown_reason),
    {
        self.trigger_shutdown_token(shutdown_reason).wrap_future(future)
    }

    /// Wrap a future to delay shutdown completion until the wrapped future completes or
    /// until it is abandoned.
    ///
    /// The wrapper transparently resolves with the value of the wrapped future.
    /// However, the shutdown will not be considered complete until the wrapped future
    /// completes or is abandoned.
    ///
    /// If the shutdown has already completed, this function returns an error that holds a
    /// clone of the reason, changes nothing, and drops the future.
    pub fn wrap_delay_shutdown<F: Future>(&mut self, future: F) -> (result: Result<
        WrapDelayShutdown<T, F>,
        ShutdownAlreadyCompleted<T>,
    >)
        requires
            old(self)@.wf(),
            old(self)@.delay_count < usize::MAX,
        ensures
            final(self)@ == old(self)@.acquire_delay(),
            final(self)@.wf(),
            result is Ok <==> !old(self)@.completed(),
            result matches Ok(wrapped) ==> wrapped.future() == future && wrapped.holds_token(),
            result matches Err(error) ==> cloned(old(self)@.reason->0, error.shutdown_reason),
    {
        match self.delay_shutdown_token() {
            Ok(token) => Ok(token.wrap_future(future)),
            Err(error) => Err(error),
        }
    }

    /// Get a token that delays shutdown completion as long as it exists.
    ///
    /// The manager counts the tokens it hands out. All of them, duplicates included, must
    /// be released before the shutdown is considered to be complete.
    ///
    /// If the shutdown has already completed, this function returns an error that holds a
    /// clone of the reason, and changes nothing.
    ///
    /// If you want to delay the shutdown until a future completes,
    /// consider using [`Self::wrap_delay_shutdown()`] instead.
    pub fn delay_shutdown_token(&mut self) -> (result: Result<
        DelayShutdownToken<T>,
        ShutdownAlreadyCompleted<T>,
    >)
        requires
            old(self)@.wf(),
            old(self)@.delay_count < usize::MAX,
        ensures
            final(self)@ == old(self)@.acquire_delay(),
            final(self)@.wf(),
            result is Ok <==> !old(self)@.completed(),
            result matches Err(error) ==> cloned(old(self)@.reason->0, error.shutdown_reason),
    {
        // Shutdown already completed, can't delay completion anymore.
        if self.delay_tokens == 0 {
            if let Some(reason) = &self.shutdown_reason {
                return Err(ShutdownAlreadyCompleted::new(reason.clone()));
            }
        }
        self.increase_delay_count();
        Ok(DelayShutdownToken { marker: PhantomData })
    }

    /// Get a token that triggers a shutdown when released.
    ///
    /// The token holds the reason until its first release. The manager is not touched
    /// before that.
    pub fn trigger_shutdown_token(&self, shutdown_reason: T) -> (token: TriggerShutdownToken<T>)
        ensures
            token.reason() == Some(shutdown_reason),
    {
        TriggerShutdownToken { shutdown_reason: Some(shutdown_reason) }
    }

    pub(crate) fn increase_delay_count(&mut self)
        requires
            old(self)@.delay_count < usize::MAX,
        ensures
            final(self)@ == old(self)@.increase_delay(),
    {
        self.delay_tokens += 1;
    }

    pub(crate) fn decrease_delay_count(&mut self)
        requires
            old(self)@.wf(),
            old(self)@.delay_count >= 1,
        ensures
            final(self)@ == old(self)@.release_delay(),
            final(self)@.wf(),
    {
        proof {
            self@.lemma_step(Event::ReleaseDelay);
        }
        self.delay_tokens -= 1;
        if self.delay_tokens == 0 && self.shutdown_reason.is_some() {
            self.notify_shutdown_complete();
        }
    }

    fn notify_shutdown_complete(&mut self)
        requires
            old(self)@.on_complete.epoch < usize::MAX,
        ensures
            final(self)@ == old(self)@.notify_complete(),
    {
        self.on_shutdown_complete.wake_all();
    }
}

impl<T: Clone> Default for ShutdownManager<T> {
    fn default() -> (manager: Self)
        ensures
            manager@ == ShutdownState::<T>::initial(),
            manager@.wf(),
    {
        Self::new()
    }
}

/// Token that delays shutdown completion as long as it exists.
///
/// The token is a receipt: the manager that issued it counts it until it is handed back
/// with [`DelayShutdownToken::release`]. Every duplicate is counted on its own.
pub struct DelayShutdownToken<T> {
    marker: PhantomData<T>,
}

impl<T: Clone> DelayShutdownToken<T> {
    /// Wrap a future to delay shutdown completion until the wrapped future completes or
    /// until it is abandoned.
    ///
    /// This consumes the token to avoid keeping an unused token around by accident, which
    /// would delay shutdown indefinitely. If you wish to use the token multiple times, make
    /// a duplicate first.
    ///
    /// The wrapper transparently resolves with the value of the wrapped future.
    /// However, the shutdown will not be considered complete until the future completes or
    /// is abandoned.
    pub fn wrap_future<F: Future>(self, future: F) -> (wrapped: WrapDelayShutdown<T, F>)
        ensures
            wrapped.future() == future,
            wrapped.holds_token(),
    {
        WrapDelayShutdown::new(self, future)
    }

    /// Make a second token, counted by the manager like the first.
    ///
    /// Both must be released before the shutdown can complete.
    pub fn duplicate(&self, manager: &mut ShutdownManager<T>) -> (token: Self)
        requires
            old(manager)@.wf(),
            1 <= old(manager)@.delay_count < usize::MAX,
        ensures
            final(manager)@ == old(manager)@.increase_delay(),
            final(manager)@.wf(),
    {
        manager.increase_delay_count();
        DelayShutdownToken { marker: PhantomData }
    }

    /// Hand the token back to the manager that counts it.
    ///
    /// If it was the last one and the shutdown has been triggered, the shutdown is now
    /// complete and the observers that wait for that are woken.
    pub fn release(self, manager: &mut ShutdownManager<T>)
        requires
            old(manager)@.wf(),
            old(manager)@.delay_count >= 1,
        ensures
            final(manager)@ == old(manager)@.release_delay(),
            final(manager)@.wf(),
    {
        manager.decrease_delay_count();
    }
}

/// Token that triggers a shutdown when it is released.
///
/// The token holds its reason for one use. Whoever shares the token releases it when done;
/// the first release triggers the shutdown, and the later ones find the token spent.
pub struct TriggerShutdownToken<T> {
    shutdown_reason: Option<T>,
}

impl<T> TriggerShutdownToken<T> {
    /// The reason that the next release triggers the shutdown with, if the token is not
    /// spent.
    pub closed spec fn reason(&self) -> Option<T> {
        self.shutdown_reason
    }
}

impl<T: Clone> TriggerShutdownToken<T> {
    /// Check whether the token still holds its reason.
    pub fn is_armed(&self) -> (armed: bool)
        ensures
            armed == self.reason() is Some,
    {
        self.shutdown_reason.is_some()
    }

    /// Wrap a future to trigger a shutdown when it completes or is abandoned.
    ///
    /// This consumes the token to avoid accidentally releasing the token
    /// after wrapping a future and instantly causing a shutdown.
    pub fn wrap_future<F: Future>(self, future: F) -> (wrapped: WrapTriggerShutdown<T, F>)
        ensures
            wrapped.future() == future,
            wrapped.reason() == self.reason(),
    {
        WrapTriggerShutdown::new(self, future)
    }

    /// Drop the token without causing a shutdown.
    ///
    /// The reason goes with it: nothing can trigger a shutdown with this token afterwards.
    pub fn forget(self) {
    }

    /// Release the token: trigger the shutdown with its reason, unless the token is spent.
    ///
    /// The reason is taken out, so that only the first release has an effect. If the
    /// shutdown has already been triggered by then, the reason is discarded and the
    /// manager is left as it is.
    pub fn release(&mut self, manager: &mut ShutdownManager<T>)
        requires
            old(manager)@.wf(),
        ensures
            final(self).reason() is None,
            final(manager)@ == old(manager)@.fire(old(self).reason()),
            final(manager)@.wf(),
    {
        let reason = self.shutdown_reason.take();
        if let Some(reason) = reason {
            let _ = manager.trigger_shutdown(reason);
        }
    }
}

} // verus!
