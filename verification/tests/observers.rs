use std::future::Future;
use std::pin::Pin;
use std::sync::{Arc, Mutex};
use std::task::{Context, Poll, Wake, Waker};

use async_shutdown::{ShutdownManager, WrapCancel};

/// The task behind a waker: it counts how often it was woken.
struct Task {
    wakes: Mutex<usize>,
}

impl Wake for Task {
    fn wake(self: Arc<Self>) {
        *self.wakes.lock().unwrap() += 1;
    }
}

impl Task {
    fn new() -> Arc<Task> {
        Arc::new(Task { wakes: Mutex::new(0) })
    }

    fn wakes(&self) -> usize {
        *self.wakes.lock().unwrap()
    }

    fn waker(self: &Arc<Self>) -> Waker {
        Waker::from(self.clone())
    }
}

/// A future that yields once before it is ready.
struct YieldNow {
    yielded: bool,
}

impl Future for YieldNow {
    type Output = Result<(), ()>;

    fn poll(mut self: Pin<&mut Self>, context: &mut Context) -> Poll<Self::Output> {
        if self.yielded {
            Poll::Ready(Ok(()))
        } else {
            self.yielded = true;
            context.waker().wake_by_ref();
            Poll::Pending
        }
    }
}

/// A future that is never ready and tells when it is dropped.
struct Never {
    dropped: Arc<Mutex<bool>>,
}

impl Future for Never {
    type Output = u32;

    fn poll(self: Pin<&mut Self>, _context: &mut Context) -> Poll<u32> {
        Poll::Pending
    }
}

impl Drop for Never {
    fn drop(&mut self) {
        *self.dropped.lock().unwrap() = true;
    }
}

fn poll_cancel<T: Clone, F: Future + Unpin>(
    wrapped: &mut WrapCancel<T, F>,
    shutdown: &mut ShutdownManager<T>,
    task: &Arc<Task>,
) -> (Option<Result<F::Output, T>>, Option<F>) {
    let mut context_waker = task.waker();
    let inner = match wrapped.future_mut() {
        Some(future) => {
            let mut context = Context::from_waker(&mut context_waker);
            match Pin::new(future).poll(&mut context) {
                Poll::Ready(value) => Some(value),
                Poll::Pending => None,
            }
        },
        None => None,
    };
    assert!(wrapped.accepted_by(shutdown));
    wrapped.poll_with(shutdown, inner, task.waker())
}

#[test]
fn shutdown_signal_waker_list_doesnt_grow_infinitely() {
    let task = Task::new();
    let mut shutdown = ShutdownManager::<()>::new();
    for i in 0..100_000 {
        let mut wrapped = shutdown.wrap_cancel(YieldNow { yielded: false });
        let (outcome, _) = poll_cancel(&mut wrapped, &mut shutdown, &task);
        assert!(outcome.is_none(), "task = {i}");
        let (outcome, _) = poll_cancel(&mut wrapped, &mut shutdown, &task);
        assert!(matches!(outcome, Some(Ok(Ok(())))), "task = {i}");
        wrapped.cancel(&mut shutdown);
    }

    // Since each task completes before the next one starts,
    // the total amount of waker slots used should be only 1.
    assert!(shutdown.on_shutdown().total_slots() == 1);
    assert!(shutdown.on_shutdown().empty_slots() == 1);
}

#[test]
fn shutdown_signal_cloning_does_not_clone_waker_token() {
    let task = Task::new();
    let mut shutdown = ShutdownManager::<()>::new();

    let mut signal = shutdown.wait_shutdown_triggered();
    assert!(!signal.is_registered());

    assert!(signal.poll(&mut shutdown, task.waker()).is_none());
    assert!(signal.is_registered());

    let mut cloned = signal.clone();
    assert!(!cloned.is_registered());
    assert!(signal.is_registered());

    assert!(cloned.poll(&mut shutdown, task.waker()).is_none());
    assert!(cloned.is_registered());
    assert!(signal.is_registered());

    assert!(shutdown.on_shutdown().total_slots() == 2);
    assert!(shutdown.on_shutdown().empty_slots() == 0);

    signal.cancel(&mut shutdown);
    assert!(shutdown.on_shutdown().empty_slots() == 1);

    cloned.cancel(&mut shutdown);
    assert!(shutdown.on_shutdown().empty_slots() == 2);
}

#[test]
fn shutdown_complete_waker_list_doesnt_grow_infinitely() {
    let task = Task::new();
    let mut shutdown = ShutdownManager::<()>::new();
    for i in 0..100_000 {
        let mut wait_shutdown_complete = shutdown.wait_shutdown_complete();
        assert!(wait_shutdown_complete.poll(&mut shutdown, task.waker()).is_none(), "task = {i}");
        wait_shutdown_complete.cancel(&mut shutdown);
    }

    // Since each observer is discarded before the next one is made,
    // the total amount of waker slots used should be only 1.
    assert!(shutdown.on_shutdown_complete().total_slots() == 1);
    assert!(shutdown.on_shutdown_complete().empty_slots() == 1);
}

#[test]
fn shutdown_complete_cloning_does_not_clone_waker_token() {
    let task = Task::new();
    let mut shutdown = ShutdownManager::<()>::new();

    let mut signal = shutdown.wait_shutdown_complete();
    assert!(!signal.is_registered());

    assert!(signal.poll(&mut shutdown, task.waker()).is_none());
    assert!(signal.is_registered());

    let mut cloned = signal.clone();
    assert!(!cloned.is_registered());
    assert!(signal.is_registered());

    assert!(cloned.poll(&mut shutdown, task.waker()).is_none());
    assert!(cloned.is_registered());
    assert!(signal.is_registered());

    assert!(shutdown.on_shutdown_complete().total_slots() == 2);
    assert!(shutdown.on_shutdown_complete().empty_slots() == 0);

    signal.cancel(&mut shutdown);
    assert!(shutdown.on_shutdown_complete().empty_slots() == 1);

    cloned.cancel(&mut shutdown);
    assert!(shutdown.on_shutdown_complete().empty_slots() == 2);
}

#[test]
fn polling_again_replaces_the_registration() {
    let first = Task::new();
    let second = Task::new();
    let mut shutdown = ShutdownManager::new();
    let mut signal = shutdown.wait_shutdown_triggered();

    assert!(signal.poll(&mut shutdown, first.waker()).is_none());
    assert!(signal.poll(&mut shutdown, second.waker()).is_none());
    assert!(shutdown.on_shutdown().total_slots() == 1);
    assert!(shutdown.on_shutdown().empty_slots() == 0);

    // Only the waker of the last poll is woken.
    assert!(shutdown.trigger_shutdown(7).is_ok());
    assert!(first.wakes() == 0);
    assert!(second.wakes() == 1);
    assert!(shutdown.on_shutdown().total_slots() == 0);
}

#[test]
fn trigger_wakes_every_pending_observer_and_resolves_them() {
    let tasks = [Task::new(), Task::new(), Task::new()];
    let mut shutdown = ShutdownManager::new();
    let mut signals = Vec::new();
    for task in &tasks {
        let mut signal = shutdown.wait_shutdown_triggered();
        assert!(signal.poll(&mut shutdown, task.waker()).is_none());
        signals.push(signal);
    }
    assert!(shutdown.on_shutdown().total_slots() == 3);

    assert!(shutdown.trigger_shutdown("now").is_ok());
    for task in &tasks {
        assert!(task.wakes() == 1);
    }
    for (signal, task) in signals.iter_mut().zip(&tasks) {
        assert!(signal.accepted_by(&shutdown));
        assert!(signal.poll(&mut shutdown, task.waker()) == Some("now"));
        assert!(!signal.is_registered());
    }
    // Nobody registers once the shutdown is triggered.
    assert!(shutdown.on_shutdown().total_slots() == 0);
    assert!(shutdown.on_shutdown().epoch() == 1);
}

#[test]
fn discarding_an_observer_after_the_trigger_changes_nothing() {
    let task = Task::new();
    let late = Task::new();
    let mut shutdown = ShutdownManager::new();
    let mut signal = shutdown.wait_shutdown_triggered();
    assert!(signal.poll(&mut shutdown, task.waker()).is_none());
    assert!(shutdown.trigger_shutdown(1).is_ok());

    // The token is stale by now.
    assert!(signal.is_registered());
    assert!(signal.accepted_by(&shutdown));
    signal.cancel(&mut shutdown);
    assert!(!signal.is_registered());
    assert!(shutdown.on_shutdown().total_slots() == 0);
    assert!(shutdown.on_shutdown().empty_slots() == 0);
    assert!(late.wakes() == 0);
}

#[test]
fn completion_observer_is_pending_until_the_last_delay_token_is_released() {
    let task = Task::new();
    let mut shutdown = ShutdownManager::new();
    let first = shutdown.delay_shutdown_token().unwrap();
    let second = first.duplicate(&mut shutdown);
    assert!(shutdown.delay_count() == 2);
    assert!(shutdown.trigger_shutdown('x').is_ok());

    let mut complete = shutdown.wait_shutdown_complete();
    assert!(complete.poll(&mut shutdown, task.waker()).is_none());
    first.release(&mut shutdown);
    assert!(task.wakes() == 0);
    assert!(complete.poll(&mut shutdown, task.waker()).is_none());
    assert!(shutdown.on_shutdown_complete().total_slots() == 1);

    second.release(&mut shutdown);
    assert!(task.wakes() == 1);
    assert!(shutdown.on_shutdown_complete().epoch() == 1);
    assert!(complete.poll(&mut shutdown, task.waker()) == Some('x'));
}

#[test]
fn cancelled_future_is_handed_back_once() {
    let task = Task::new();
    let dropped = Arc::new(Mutex::new(false));
    let mut shutdown = ShutdownManager::new();
    let mut wrapped = shutdown.wrap_cancel(Never { dropped: dropped.clone() });
    assert!(!wrapped.is_cancelled());

    let (outcome, lost) = poll_cancel(&mut wrapped, &mut shutdown, &task);
    assert!(outcome.is_none());
    assert!(lost.is_none());
    assert!(shutdown.trigger_shutdown("x").is_ok());
    assert!(task.wakes() == 1);

    let (outcome, lost) = poll_cancel(&mut wrapped, &mut shutdown, &task);
    assert!(matches!(outcome, Some(Err("x"))));
    assert!(wrapped.is_cancelled());
    assert!(wrapped.future_mut().is_none());
    assert!(lost.is_some());
    assert!(!*dropped.lock().unwrap());
    drop(lost);
    assert!(*dropped.lock().unwrap());

    // The outcome stays, and there is no future left to hand back.
    let (outcome, lost) = poll_cancel(&mut wrapped, &mut shutdown, &task);
    assert!(matches!(outcome, Some(Err("x"))));
    assert!(lost.is_none());
    assert!(shutdown.on_shutdown().total_slots() == 0);
}

#[test]
fn ready_future_wins_over_a_shutdown_triggered_before_the_poll() {
    let task = Task::new();
    let mut shutdown = ShutdownManager::new();
    let mut wrapped = shutdown.wrap_cancel(std::future::ready(10));
    assert!(shutdown.trigger_shutdown("too late").is_ok());
    let (outcome, lost) = poll_cancel(&mut wrapped, &mut shutdown, &task);
    assert!(matches!(outcome, Some(Ok(10))));
    assert!(lost.is_none());
    assert!(!wrapped.is_cancelled());
}

#[test]
fn cancellation_reason_is_kept_whatever_is_handed_in_later() {
    let task = Task::new();
    let mut shutdown = ShutdownManager::new();
    let mut wrapped = shutdown.wrap_cancel(std::future::pending::<u8>());
    assert!(shutdown.trigger_shutdown(3).is_ok());
    let (outcome, _) = wrapped.poll_with(&mut shutdown, None, task.waker());
    assert!(matches!(outcome, Some(Err(3))));

    // A second trigger is refused, and a value that comes too late is not looked at.
    assert!(shutdown.trigger_shutdown(4).is_err());
    let (outcome, lost) = wrapped.poll_with(&mut shutdown, Some(9u8), task.waker());
    assert!(matches!(outcome, Some(Err(3))));
    assert!(lost.is_none());
}

#[test]
fn discarding_a_pending_wrapper_withdraws_its_waker() {
    let task = Task::new();
    let mut shutdown = ShutdownManager::<u8>::new();
    let mut wrapped = shutdown.wrap_cancel(std::future::pending::<()>());
    let (outcome, _) = poll_cancel(&mut wrapped, &mut shutdown, &task);
    assert!(outcome.is_none());
    assert!(shutdown.on_shutdown().total_slots() == 1);
    assert!(shutdown.on_shutdown().empty_slots() == 0);

    wrapped.cancel(&mut shutdown);
    assert!(shutdown.on_shutdown().empty_slots() == 1);
    assert!(shutdown.trigger_shutdown(1).is_ok());
    assert!(task.wakes() == 0);
}
