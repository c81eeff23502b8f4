//! The shutdown state machine as a mathematical model: its states, its transitions, and
//! what holds of every run.

use vstd::prelude::*;
use std::task::Waker;
use crate::waker_list::{WakerListView, WakerTokenView};

verus! {

/// `copy` is what cloning `source` may give: both absent, or both present and the second a
/// clone of the first.
pub open spec fn cloned_option<T: Clone>(source: Option<T>, copy: Option<T>) -> bool {
    match source {
        Some(value) => copy is Some && cloned(value, copy->0),
        None => copy is None,
    }
}

/// The mathematical content of a [`ShutdownManager`](crate::ShutdownManager).
pub struct ShutdownState<T> {
    /// The reason of the shutdown, once it has been triggered.
    pub reason: Option<T>,
    /// The number of delay tokens in existence.
    pub delay_count: nat,
    /// The wakers of the observers that wait for the trigger.
    pub on_trigger: WakerListView,
    /// The wakers of the observers that wait for completion.
    pub on_complete: WakerListView,
}

/// One operation on a shutdown state, with what it is given.
pub enum Event<T> {
    /// A call of `ShutdownManager::trigger_shutdown`, or the release of a trigger token that
    /// holds `reason`.
    Trigger { reason: T },
    /// A call of `ShutdownManager::delay_shutdown_token` or `wrap_delay_shutdown`.
    AcquireDelay,
    /// A delay token is duplicated.
    DuplicateDelay,
    /// A delay token is released, by its holder or by the wrapper that holds it.
    ReleaseDelay,
    /// A trigger observer that holds `stored` is polled with `waker`.
    PollTriggered { stored: Option<WakerTokenView>, waker: Waker },
    /// A trigger observer that holds `stored` is discarded.
    CancelTriggered { stored: Option<WakerTokenView> },
    /// A completion observer that holds `stored` is polled with `waker`.
    PollCompleted { stored: Option<WakerTokenView>, waker: Waker },
    /// A completion observer that holds `stored` is discarded.
    CancelCompleted { stored: Option<WakerTokenView> },
}

impl<T> ShutdownState<T> {
    /// The state of a new manager.
    pub open spec fn initial() -> Self {
        ShutdownState {
            reason: None,
            delay_count: 0,
            on_trigger: WakerListView::empty(),
            on_complete: WakerListView::empty(),
        }
    }

    /// The shutdown has been triggered.
    pub open spec fn triggered(self) -> bool {
        self.reason is Some
    }

    /// The shutdown has been triggered and no delay token is left.
    pub open spec fn completed(self) -> bool {
        self.reason is Some && self.delay_count == 0
    }

    /// Both waker lists are well formed; each has been emptied exactly once if the event it
    /// announces has happened and never otherwise; and no waker waits for an event that has
    /// already happened.
    pub open spec fn wf(self) -> bool {
        &&& self.on_trigger.wf()
        &&& self.on_complete.wf()
        &&& self.on_trigger.epoch == if self.triggered() { 1nat } else { 0nat }
        &&& self.on_complete.epoch == if self.completed() { 1nat } else { 0nat }
        &&& self.triggered() ==> self.on_trigger.slots.len() == 0
        &&& self.completed() ==> self.on_complete.slots.len() == 0
    }

    /// The state after the completion observers have been woken.
    pub open spec fn notify_complete(self) -> Self {
        ShutdownState { on_complete: self.on_complete.wake_all(), ..self }
    }

    /// The state after `trigger_shutdown(reason)`.
    ///
    /// A first trigger records the reason and wakes the trigger observers, and the completion
    /// observers too if no delay token exists. A later one changes nothing.
    pub open spec fn trigger(self, reason: T) -> Self {
        if self.triggered() {
            self
        } else {
            let fired = ShutdownState {
                reason: Some(reason),
                on_trigger: self.on_trigger.wake_all(),
                ..self
            };
            if self.delay_count == 0 {
                fired.notify_complete()
            } else {
                fired
            }
        }
    }

    /// The state after a trigger token that holds `held` has been released: the shutdown
    /// is triggered with the reason that the token holds, and a spent token does nothing.
    pub open spec fn fire(self, held: Option<T>) -> Self {
        match held {
            Some(reason) => self.trigger(reason),
            None => self,
        }
    }

    /// The state with one delay token more.
    pub open spec fn increase_delay(self) -> Self {
        ShutdownState { delay_count: self.delay_count + 1, ..self }
    }

    /// The state after a request for a delay token: refused, and nothing changed, once the
    /// shutdown has completed.
    pub open spec fn acquire_delay(self) -> Self {
        if self.completed() {
            self
        } else {
            self.increase_delay()
        }
    }

    /// The state after one delay token has been released. If it was the last one and the
    /// shutdown has been triggered, the completion observers are woken.
    pub open spec fn release_delay(self) -> Self
        recommends
            self.delay_count >= 1,
    {
        let lowered = ShutdownState { delay_count: (self.delay_count - 1) as nat, ..self };
        if lowered.completed() {
            lowered.notify_complete()
        } else {
            lowered
        }
    }

    /// The state after a trigger observer that holds `stored` has been polled with `waker`:
    /// its old registration is withdrawn, and `waker` is registered if the shutdown has not
    /// been triggered.
    pub open spec fn poll_triggered(self, stored: Option<WakerTokenView>, waker: Waker) -> Self {
        let withdrawn = self.on_trigger.withdraw(stored);
        ShutdownState {
            on_trigger: if self.triggered() {
                withdrawn
            } else {
                withdrawn.register(waker)
            },
            ..self
        }
    }

    /// The token that a trigger observer holds after that poll.
    pub open spec fn poll_triggered_token(self, stored: Option<WakerTokenView>) -> Option<
        WakerTokenView,
    > {
        if self.triggered() {
            None
        } else {
            Some(self.on_trigger.withdraw(stored).next_token())
        }
    }

    /// The state after a trigger observer that holds `stored` has been discarded.
    pub open spec fn cancel_triggered(self, stored: Option<WakerTokenView>) -> Self {
        ShutdownState { on_trigger: self.on_trigger.withdraw(stored), ..self }
    }

    /// What a poll of a completion observer resolves to: the reason once the shutdown has
    /// completed, and nothing before.
    pub open spec fn completion(self) -> Option<T> {
        if self.completed() {
            self.reason
        } else {
            None
        }
    }

    /// The state after a completion observer that holds `stored` has been polled with
    /// `waker`: its old registration is withdrawn, and `waker` is registered if the shutdown
    /// has not completed.
    pub open spec fn poll_completed(self, stored: Option<WakerTokenView>, waker: Waker) -> Self {
        let withdrawn = self.on_complete.withdraw(stored);
        ShutdownState {
            on_complete: if self.completed() {
                withdrawn
            } else {
                withdrawn.register(waker)
            },
            ..self
        }
    }

    /// The token that a completion observer holds after that poll.
    pub open spec fn poll_completed_token(self, stored: Option<WakerTokenView>) -> Option<
        WakerTokenView,
    > {
        if self.completed() {
            None
        } else {
            Some(self.on_complete.withdraw(stored).next_token())
        }
    }

    /// The state after a completion observer that holds `stored` has been discarded.
    pub open spec fn cancel_completed(self, stored: Option<WakerTokenView>) -> Self {
        ShutdownState { on_complete: self.on_complete.withdraw(stored), ..self }
    }

    /// The event may happen in this state: a delay token can only be duplicated or released
    /// while one exists, and an observer can only bring a token that the list accepts.
    pub open spec fn enabled(self, event: Event<T>) -> bool {
        match event {
            Event::Trigger { .. } => true,
            Event::AcquireDelay => true,
            Event::DuplicateDelay => self.delay_count >= 1,
            Event::ReleaseDelay => self.delay_count >= 1,
            Event::PollTriggered { stored, .. } => self.on_trigger.accepts_stored(stored),
            Event::CancelTriggered { stored } => self.on_trigger.accepts_stored(stored),
            Event::PollCompleted { stored, .. } => self.on_complete.accepts_stored(stored),
            Event::CancelCompleted { stored } => self.on_complete.accepts_stored(stored),
        }
    }

    /// The state after the event.
    pub open spec fn step(self, event: Event<T>) -> Self {
        match event {
            Event::Trigger { reason } => self.trigger(reason),
            Event::AcquireDelay => self.acquire_delay(),
            Event::DuplicateDelay => self.increase_delay(),
            Event::ReleaseDelay => self.release_delay(),
            Event::PollTriggered { stored, waker } => self.poll_triggered(stored, waker),
            Event::CancelTriggered { stored } => self.cancel_triggered(stored),
            Event::PollCompleted { stored, waker } => self.poll_completed(stored, waker),
            Event::CancelCompleted { stored } => self.cancel_completed(stored),
        }
    }

    /// Each of the events may happen in the state that the ones before it lead to.
    pub open spec fn admits(self, events: Seq<Event<T>>) -> bool
        decreases events.len(),
    {
        events.len() > 0 ==> self.enabled(events.first()) && self.step(events.first()).admits(
            events.drop_first(),
        )
    }

    /// The state after all the events, in order.
    pub open spec fn run(self, events: Seq<Event<T>>) -> Self
        decreases events.len(),
    {
        if events.len() == 0 {
            self
        } else {
            self.step(events.first()).run(events.drop_first())
        }
    }

    /// Every event that may happen leads from a well-formed state to a well-formed state,
    /// keeps a reason that is set, and keeps a completed shutdown completed.
    pub proof fn lemma_step(self, event: Event<T>)
        requires
            self.wf(),
            self.enabled(event),
        ensures
            self.step(event).wf(),
            self.triggered() ==> self.step(event).reason == self.reason,
            self.completed() ==> self.step(event).completed(),
    {
        match event {
            Event::Trigger { reason } => {
                self.on_trigger.lemma_wake_all_wf(self.on_trigger.next_token());
                self.on_complete.lemma_wake_all_wf(self.on_complete.next_token());
            },
            Event::AcquireDelay => {},
            Event::DuplicateDelay => {},
            Event::ReleaseDelay => {
                self.on_complete.lemma_wake_all_wf(self.on_complete.next_token());
            },
            Event::PollTriggered { stored, waker } => {
                self.lemma_poll_triggered(stored, waker);
            },
            Event::CancelTriggered { stored } => {
                self.lemma_poll_triggered(stored, arbitrary());
            },
            Event::PollCompleted { stored, waker } => {
                self.lemma_poll_completed(stored, waker);
            },
            Event::CancelCompleted { stored } => {
                self.lemma_poll_completed(stored, arbitrary());
            },
        }
    }

    /// Polling or discarding a trigger observer keeps the state well formed.
    pub proof fn lemma_poll_triggered(self, stored: Option<WakerTokenView>, waker: Waker)
        requires
            self.wf(),
        ensures
            self.poll_triggered(stored, waker).wf(),
            self.cancel_triggered(stored).wf(),
            self.on_trigger.withdraw(stored).wf(),
    {
        if stored is Some {
            self.on_trigger.lemma_deregister_wf(stored->0);
        }
        self.on_trigger.withdraw(stored).lemma_register_wf(waker);
    }

    /// Polling or discarding a completion observer keeps the state well formed.
    pub proof fn lemma_poll_completed(self, stored: Option<WakerTokenView>, waker: Waker)
        requires
            self.wf(),
        ensures
            self.poll_completed(stored, waker).wf(),
            self.cancel_completed(stored).wf(),
            self.on_complete.withdraw(stored).wf(),
    {
        if stored is Some {
            self.on_complete.lemma_deregister_wf(stored->0);
        }
        self.on_complete.withdraw(stored).lemma_register_wf(waker);
    }

    /// No delay token is given up unless one is released: events other than a release never
    /// lower the count.
    pub proof fn lemma_delay_count_kept(self, events: Seq<Event<T>>)
        requires
            self.admits(events),
            forall|i: int| 0 <= i < events.len() ==> !((#[trigger] events[i]) is ReleaseDelay),
        ensures
            self.run(events).delay_count >= self.delay_count,
        decreases events.len(),
    {
        if events.len() > 0 {
            let rest = events.drop_first();
            self.step(events.first()).lemma_delay_count_kept(rest);
        }
    }

    /// Whatever happens to a well-formed state, it stays well formed, a reason once set is
    /// never replaced, and a completed shutdown stays completed.
    pub proof fn lemma_run(self, events: Seq<Event<T>>)
        requires
            self.wf(),
            self.admits(events),
        ensures
            self.run(events).wf(),
            self.triggered() ==> self.run(events).reason == self.reason,
            self.completed() ==> self.run(events).completed(),
        decreases events.len(),
    {
        if events.len() > 0 {
            self.lemma_step(events.first());
            self.step(events.first()).lemma_run(events.drop_first());
        }
    }
}

} // verus!
