//! Laws of the shutdown state machine that relate several operations.
//!
//! Each law is stated over the model in [`crate::state`], in the terms in which the
//! operations of the engine state their own effect.

use vstd::prelude::*;
use crate::state::{Event, ShutdownState};
use crate::waker_list::WakerTokenView;
use crate::wrap_cancel::race;

verus! {

/// Of two triggers in a row the first one wins.
///
/// The first is accepted and sets the reason. The second finds the shutdown triggered, so
/// it is refused, with the first reason as the one in force, and it changes nothing. The
/// first reason then stays in force whatever happens afterwards.
pub proof fn lemma_first_trigger_wins<T>(
    state: ShutdownState<T>,
    first: T,
    second: T,
    later: Seq<Event<T>>,
)
    requires
        state.wf(),
        !state.triggered(),
        state.trigger(first).admits(later),
    ensures
        state.trigger(first).triggered(),
        state.trigger(first).reason == Some(first),
        state.trigger(first).trigger(second) == state.trigger(first),
        state.trigger(first).run(later).reason == Some(first),
        state.trigger(first).run(later).trigger(second) == state.trigger(first).run(later),
{
    state.lemma_step(Event::Trigger { reason: first });
    state.trigger(first).lemma_run(later);
}

/// A shutdown that is triggered while no delay token exists is complete at once.
///
/// The completion observers that were registered are woken by the same step, and a
/// completion observer that is polled afterwards resolves with the reason.
pub proof fn lemma_trigger_without_delay_completes<T>(state: ShutdownState<T>, reason: T)
    requires
        state.wf(),
        !state.triggered(),
        state.delay_count == 0,
    ensures
        state.trigger(reason).completed(),
        state.trigger(reason).completion() == Some(reason),
        state.trigger(reason).on_complete == state.on_complete.wake_all(),
{
}

/// A delay token postpones completion until it is released.
///
/// Take a delay token before the shutdown is triggered, then trigger. The shutdown is then
/// triggered and not completed, and it stays so whatever happens meanwhile, as long as no
/// delay token is released: no completion observer resolves. When the last delay token is
/// released, the shutdown is complete: the completion observers that were registered are
/// woken, and a completion observer that is polled afterwards resolves with the reason of
/// the trigger.
pub proof fn lemma_delay_token_postpones_completion<T>(
    state: ShutdownState<T>,
    reason: T,
    meanwhile: Seq<Event<T>>,
)
    requires
        state.wf(),
        !state.triggered(),
        state.acquire_delay().trigger(reason).admits(meanwhile),
        forall|i: int| 0 <= i < meanwhile.len() ==> !((#[trigger] meanwhile[i]) is ReleaseDelay),
    ensures
        state.acquire_delay().delay_count == state.delay_count + 1,
        state.acquire_delay().trigger(reason).triggered(),
        !state.acquire_delay().trigger(reason).completed(),
        ({
            let before = state.acquire_delay().trigger(reason).run(meanwhile);
            &&& before.wf()
            &&& before.reason == Some(reason)
            &&& !before.completed()
            &&& before.completion() is None
            &&& before.delay_count == 1 ==> {
                &&& before.release_delay().completed()
                &&& before.release_delay().completion() == Some(reason)
                &&& before.release_delay().on_complete == before.on_complete.wake_all()
            }
        }),
{
    let delayed = state.acquire_delay().trigger(reason);
    state.lemma_step(Event::AcquireDelay);
    state.acquire_delay().lemma_step(Event::Trigger { reason });
    delayed.lemma_run(meanwhile);
    delayed.lemma_delay_count_kept(meanwhile);
}

/// The race between a future and the shutdown signal has one winner, for good.
///
/// * A future that is ready wins, whether or not the shutdown has been triggered.
/// * A future that is pending loses against a shutdown that has been triggered, and wins
///   nothing against one that has not.
/// * Once the shutdown has won, the reason that was kept is the outcome of every later
///   poll: neither a value of the future nor a later trigger changes it.
pub proof fn lemma_race_is_decided_once<T, F, O>(
    future: F,
    value: O,
    reason: T,
    kept: T,
    inner: Option<O>,
    triggered: Option<T>,
)
    ensures
        race(Ok::<F, T>(future), Some(value), triggered) == Some(Ok::<O, T>(value)),
        race(Ok::<F, T>(future), None::<O>, Some(reason)) == Some(Err::<O, T>(reason)),
        race(Ok::<F, T>(future), None::<O>, None::<T>) == None::<Result<O, T>>,
        race(Err::<F, T>(kept), inner, triggered) == Some(Err::<O, T>(kept)),
{
}

/// A trigger token fires once.
///
/// The first release of a token that holds a reason triggers the shutdown with that
/// reason. The token is then spent, and to release it again changes nothing, whatever has
/// happened in between. A token that is never released, or is forgotten, leaves the state
/// as it is: no step of the state machine depends on a token that is held.
pub proof fn lemma_trigger_token_fires_once<T>(
    state: ShutdownState<T>,
    reason: T,
    later: Seq<Event<T>>,
)
    requires
        state.wf(),
        state.fire(Some(reason)).admits(later),
    ensures
        state.fire(Some(reason)) == state.trigger(reason),
        state.fire(Some(reason)).triggered(),
        !state.triggered() ==> state.fire(Some(reason)).reason == Some(reason),
        state.fire(Some(reason)).fire(None) == state.fire(Some(reason)),
        state.fire(Some(reason)).run(later).fire(None) == state.fire(Some(reason)).run(later),
        state.fire(Some(reason)).run(later).wf(),
{
    state.lemma_step(Event::Trigger { reason });
    state.trigger(reason).lemma_run(later);
}

/// Once the shutdown has completed, no delay token is handed out any more.
///
/// Whatever happens to a completed shutdown, it stays completed, it counts no delay token,
/// and a request for a delay token is refused and changes nothing.
pub proof fn lemma_completed_refuses_delay<T>(state: ShutdownState<T>, later: Seq<Event<T>>)
    requires
        state.wf(),
        state.completed(),
        state.admits(later),
    ensures
        state.run(later).completed(),
        state.run(later).delay_count == 0,
        state.run(later).reason == state.reason,
        state.run(later).acquire_delay() == state.run(later),
{
    state.lemma_run(later);
}

/// No observer is left waiting for what has already happened.
///
/// An observer that is polled before the trigger is registered. The trigger empties the
/// list, which wakes it, and makes its token stale. Its next poll resolves with the
/// reason, holds no token and registers nothing.
pub proof fn lemma_trigger_resolves_observers<T>(
    state: ShutdownState<T>,
    reason: T,
    stored: Option<WakerTokenView>,
    waker: std::task::Waker,
    again: std::task::Waker,
)
    requires
        state.wf(),
        !state.triggered(),
        state.on_trigger.accepts_stored(stored),
    ensures
        ({
            let pending = state.poll_triggered(stored, waker);
            let token = state.poll_triggered_token(stored);
            let fired = pending.trigger(reason);
            &&& token is Some
            &&& pending.on_trigger.holds(token->0)
            &&& fired.on_trigger == pending.on_trigger.wake_all()
            &&& fired.on_trigger.accepts_stored(token)
            &&& fired.poll_triggered_token(token) is None
            &&& fired.poll_triggered(token, again) == fired
        }),
{
    state.lemma_poll_triggered(stored, waker);
    if stored is Some {
        state.on_trigger.lemma_deregister_wf(stored->0);
    }
    state.on_trigger.withdraw(stored).lemma_register_wf(waker);
}

/// An observer that comes and goes is one passing waiter to the waker list.
///
/// An observer of the trigger that is polled once and then discarded, or woken by the
/// trigger, leaves the list of trigger observers as
/// [`cycle`](crate::waker_list::WakerListView::cycle) says, and so
/// does an observer of the completion that is polled once and then discarded. By
/// [`lemma_cycles_bounded`](crate::waker_list::WakerListView::lemma_cycles_bounded) such
/// observers, one after the other, never need a second slot.
pub proof fn lemma_observer_is_a_passing_waiter<T>(
    state: ShutdownState<T>,
    waker: std::task::Waker,
    reason: T,
)
    requires
        state.wf(),
    ensures
        !state.triggered() ==> {
            let pending = state.poll_triggered(None, waker);
            let token = state.poll_triggered_token(None);
            &&& pending.cancel_triggered(token).on_trigger == state.on_trigger.cycle(waker, false)
            &&& pending.trigger(reason).on_trigger == state.on_trigger.cycle(waker, true)
        },
        !state.completed() ==> {
            let pending = state.poll_completed(None, waker);
            let token = state.poll_completed_token(None);
            pending.cancel_completed(token).on_complete == state.on_complete.cycle(waker, false)
        },
{
}

} // verus!
