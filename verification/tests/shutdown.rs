use std::future::Future;
use std::pin::Pin;
use std::sync::{Arc, Mutex};
use std::task::{Context, Poll, Wake, Waker};

use async_shutdown::{
    ShutdownAlreadyCompleted, ShutdownAlreadyStarted, ShutdownComplete, ShutdownManager,
    ShutdownSignal, WrapCancel, WrapDelayShutdown, WrapTriggerShutdown,
};

/// The task behind a waker: it counts how often it was woken.
struct Task {
    wakes: Mutex<usize>,
}

impl Wake for Task {
    fn wake(self: Arc<Self>) {
        *self.wakes.lock().unwrap() += 1;
    }
}

impl Task {
    fn new() -> Arc<Task> {
        Arc::new(Task { wakes: Mutex::new(0) })
    }

    fn wakes(&self) -> usize {
        *self.wakes.lock().unwrap()
    }
}

/// A future that is pending for a number of polls and asks to be polled again each time.
struct Sleep {
    polls: u32,
}

impl Future for Sleep {
    type Output = ();

    fn poll(mut self: Pin<&mut Self>, context: &mut Context) -> Poll<()> {
        if self.polls == 0 {
            Poll::Ready(())
        } else {
            self.polls -= 1;
            context.waker().wake_by_ref();
            Poll::Pending
        }
    }
}

fn sleep(polls: u32) -> Sleep {
    Sleep { polls }
}

/// The number of polls after which a test gives up.
const TIMEOUT: usize = 100;

fn poll_future<F: Future + Unpin>(future: &mut F, task: &Arc<Task>) -> Option<F::Output> {
    let waker = Waker::from(task.clone());
    let mut context = Context::from_waker(&waker);
    match Pin::new(future).poll(&mut context) {
        Poll::Ready(value) => Some(value),
        Poll::Pending => None,
    }
}

fn poll_triggered<T: Clone>(
    signal: &mut ShutdownSignal<T>,
    shutdown: &mut ShutdownManager<T>,
    task: &Arc<Task>,
) -> Option<T> {
    assert!(signal.accepted_by(shutdown));
    signal.poll(shutdown, Waker::from(task.clone()))
}

fn poll_complete<T: Clone>(
    observer: &mut ShutdownComplete<T>,
    shutdown: &mut ShutdownManager<T>,
    task: &Arc<Task>,
) -> Option<T> {
    assert!(observer.accepted_by(shutdown));
    observer.poll(shutdown, Waker::from(task.clone()))
}

fn poll_cancel<T: Clone, F: Future + Unpin>(
    wrapped: &mut WrapCancel<T, F>,
    shutdown: &mut ShutdownManager<T>,
    task: &Arc<Task>,
) -> Option<Result<F::Output, T>> {
    let inner = match wrapped.future_mut() {
        Some(future) => poll_future(future, task),
        None => None,
    };
    assert!(wrapped.accepted_by(shutdown));
    let (outcome, lost) = wrapped.poll_with(shutdown, inner, Waker::from(task.clone()));
    drop(lost);
    outcome
}

fn poll_delay<T: Clone, F: Future + Unpin>(
    wrapped: &mut WrapDelayShutdown<T, F>,
    shutdown: &mut ShutdownManager<T>,
    task: &Arc<Task>,
) -> Option<F::Output> {
    let inner = poll_future(wrapped.future_mut(), task);
    assert!(!wrapped.is_delaying() || shutdown.delay_count() >= 1);
    wrapped.poll_with(shutdown, inner)
}

fn poll_trigger<T: Clone, F: Future + Unpin>(
    wrapped: &mut WrapTriggerShutdown<T, F>,
    shutdown: &mut ShutdownManager<T>,
    task: &Arc<Task>,
) -> Option<F::Output> {
    let inner = poll_future(wrapped.future_mut(), task);
    wrapped.poll_with(shutdown, inner)
}

#[test]
fn shutdown() {
    // Create a `ShutdownManager` manager and instantly trigger a shutdown,
    {
        let task = Task::new();
        let mut shutdown = ShutdownManager::new();
        assert!(matches!(shutdown.trigger_shutdown(1), Ok(())));
        let mut triggered = shutdown.wait_shutdown_triggered();
        assert!(poll_triggered(&mut triggered, &mut shutdown, &task) == Some(1));
        let mut complete = shutdown.wait_shutdown_complete();
        assert!(poll_complete(&mut complete, &mut shutdown, &task) == Some(1));
    }

    // Trigger the shutdown while a task is waiting for it.
    {
        let task = Task::new();
        let mut shutdown = ShutdownManager::new();
        let mut triggered = shutdown.wait_shutdown_triggered();
        assert!(poll_triggered(&mut triggered, &mut shutdown, &task) == None);
        assert!(task.wakes() == 0);

        assert!(matches!(shutdown.trigger_shutdown(2), Ok(())));
        assert!(task.wakes() == 1);

        assert!(poll_triggered(&mut triggered, &mut shutdown, &task) == Some(2));
        let mut complete = shutdown.wait_shutdown_complete();
        assert!(poll_complete(&mut complete, &mut shutdown, &task) == Some(2));
    }
}

#[test]
fn shutdown_only_works_once() {
    let mut shutdown = ShutdownManager::new();
    assert!(matches!(shutdown.trigger_shutdown("first"), Ok(())));
    assert!(matches!(
        shutdown.trigger_shutdown("second"),
        Err(ShutdownAlreadyStarted { shutdown_reason: "first", ignored_reason: "second", .. })
    ));
}

#[test]
fn wrap_cancel() {
    // Drive a never-completing future that is automatically dropped on shutdown.
    {
        let task = Task::new();
        let mut shutdown = ShutdownManager::new();
        let mut wrapped = shutdown.wrap_cancel(std::future::pending::<()>());
        assert!(poll_cancel(&mut wrapped, &mut shutdown, &task) == None);
        assert!(matches!(shutdown.trigger_shutdown("goodbye!"), Ok(())));
        assert!(task.wakes() == 1);
        let outcome = poll_cancel(&mut wrapped, &mut shutdown, &task);
        let Some(Err(reason)) = outcome else {
            panic!("the wrapped future was not cancelled");
        };
        assert!(reason == "goodbye!");
    }

    // Same test, but use a ShutdownSignal to wrap the future.
    {
        let task = Task::new();
        let mut shutdown = ShutdownManager::new();
        let wait_shutdown_triggered = shutdown.wait_shutdown_triggered();
        let mut wrapped = wait_shutdown_triggered.wrap_cancel(std::future::pending::<()>());
        assert!(poll_cancel(&mut wrapped, &mut shutdown, &task) == None);
        assert!(matches!(shutdown.trigger_shutdown("wooh"), Ok(())));
        assert!(task.wakes() == 1);
        let outcome = poll_cancel(&mut wrapped, &mut shutdown, &task);
        let Some(Err(reason)) = outcome else {
            panic!("the wrapped future was not cancelled");
        };
        assert!(reason == "wooh");
    }
}

#[test]
fn wrap_cancel_no_shutdown() {
    // Drive an already ready future and verify that it can complete if no shutdown happens.
    {
        let task = Task::new();
        let mut shutdown = ShutdownManager::<()>::new();
        let mut wrapped = shutdown.wrap_cancel(std::future::ready(10));
        assert!(matches!(poll_cancel(&mut wrapped, &mut shutdown, &task), Some(Ok(10))));
    }

    // Same test, but use a future that first sleeps and then completes.
    {
        let task = Task::new();
        let mut shutdown = ShutdownManager::<()>::new();
        let mut wrapped = shutdown.wrap_cancel(Box::pin(async {
            sleep(20).await;
            10u32
        }));
        let mut outcome = None;
        let mut polls = 0;
        while outcome.is_none() {
            assert!(polls < TIMEOUT, "test timed out");
            outcome = poll_cancel(&mut wrapped, &mut shutdown, &task);
            polls += 1;
        }
        assert!(matches!(outcome, Some(Ok(10))));
        assert!(polls == 21);
    }
}

#[test]
fn delay_token() {
    // Delay shutdown completion using a delay-shutdown token.
    let task = Task::new();
    let waiter = Task::new();
    let mut shutdown = ShutdownManager::new();

    // Create a token to delay shutdown completion.
    let Ok(delay) = shutdown.delay_shutdown_token() else {
        panic!("no delay token before the shutdown has completed");
    };

    assert!(matches!(shutdown.trigger_shutdown(10), Ok(())));
    let mut triggered = shutdown.wait_shutdown_triggered();
    assert!(poll_triggered(&mut triggered, &mut shutdown, &task) == Some(10));
    assert!(shutdown.is_shutdown_completed() == false);

    // Wait for completion while the token is still held.
    let mut complete = shutdown.wait_shutdown_complete();
    assert!(poll_complete(&mut complete, &mut shutdown, &waiter) == None);
    assert!(waiter.wakes() == 0);

    // Release the token.
    delay.release(&mut shutdown);
    assert!(waiter.wakes() == 1);

    assert!(poll_complete(&mut complete, &mut shutdown, &waiter) == Some(10));
}

#[test]
fn wrap_delay() {
    // Drive a future that delays shutdown as long as it is running.
    let task = Task::new();
    let waiter = Task::new();
    let mut shutdown = ShutdownManager::new();
    let Ok(delay) = shutdown.delay_shutdown_token() else {
        panic!("no delay token before the shutdown has completed");
    };
    assert!(matches!(shutdown.trigger_shutdown(10), Ok(())));

    let mut wrapped = delay.wrap_future(Box::pin(async move {
        sleep(10).await;
    }));

    let mut triggered = shutdown.wait_shutdown_triggered();
    assert!(poll_triggered(&mut triggered, &mut shutdown, &waiter) == Some(10));

    let mut complete = shutdown.wait_shutdown_complete();
    let mut polls = 0;
    loop {
        assert!(polls < TIMEOUT, "test timed out");
        if let Some(reason) = poll_complete(&mut complete, &mut shutdown, &waiter) {
            assert!(reason == 10);
            break;
        }
        assert!(wrapped.is_delaying());
        let _ = poll_delay(&mut wrapped, &mut shutdown, &task);
        polls += 1;
    }
    assert!(polls == 11);
    assert!(!wrapped.is_delaying());
    assert!(waiter.wakes() == 1);
}

#[test]
fn wait_for_shutdown_complete_in_task_without_delay_tokens() {
    let waiter = Task::new();
    let mut shutdown = ShutdownManager::new();

    let mut complete = shutdown.wait_shutdown_complete();
    assert!(poll_complete(&mut complete, &mut shutdown, &waiter) == None);

    assert!(matches!(shutdown.trigger_shutdown(10), Ok(())));
    assert!(waiter.wakes() == 1);

    assert!(poll_complete(&mut complete, &mut shutdown, &waiter) == Some(10));
}

#[test]
fn delay_token_too_late() {
    // Try go get a delay-shutdown token after the shutdown completed.
    let mut shutdown = ShutdownManager::new();
    assert!(matches!(shutdown.trigger_shutdown(()), Ok(())));
    assert!(matches!(shutdown.delay_shutdown_token(), Err(ShutdownAlreadyCompleted { .. })));
    assert!(matches!(
        shutdown.wrap_delay_shutdown(std::future::pending::<()>()),
        Err(ShutdownAlreadyCompleted { .. })
    ));
}

#[test]
fn vital_token() {
    // Trigger a shutdown by releasing a token.
    {
        let task = Task::new();
        let mut shutdown = ShutdownManager::new();

        let mut trigger_shutdown_token = shutdown.trigger_shutdown_token("stop!");
        trigger_shutdown_token.release(&mut shutdown);

        let mut triggered = shutdown.wait_shutdown_triggered();
        assert!(poll_triggered(&mut triggered, &mut shutdown, &task) == Some("stop!"));
        let mut complete = shutdown.wait_shutdown_complete();
        assert!(poll_complete(&mut complete, &mut shutdown, &task) == Some("stop!"));
    }

    // Same test, but release the vital token while tasks are waiting.
    {
        let task = Task::new();
        let mut shutdown = ShutdownManager::new();

        let mut vital = shutdown.trigger_shutdown_token("done");
        let mut triggered = shutdown.wait_shutdown_triggered();
        let mut complete = shutdown.wait_shutdown_complete();
        assert!(poll_triggered(&mut triggered, &mut shutdown, &task) == None);
        assert!(poll_complete(&mut complete, &mut shutdown, &task) == None);

        vital.release(&mut shutdown);
        assert!(task.wakes() == 2);

        assert!(poll_triggered(&mut triggered, &mut shutdown, &task) == Some("done"));
        assert!(poll_complete(&mut complete, &mut shutdown, &task) == Some("done"));
    }
}

#[test]
fn wrap_vital() {
    // Trigger a shutdown when a vital future finishes after a short sleep.
    {
        let task = Task::new();
        let waiter = Task::new();
        let mut shutdown = ShutdownManager::new();

        let mut wrapped = shutdown.wrap_trigger_shutdown(
            "sleep done",
            Box::pin(async move {
                sleep(20).await;
            }),
        );

        let mut triggered = shutdown.wait_shutdown_triggered();
        let mut polls = 0;
        loop {
            assert!(polls < TIMEOUT, "test timed out");
            if let Some(reason) = poll_triggered(&mut triggered, &mut shutdown, &waiter) {
                assert!(reason == "sleep done");
                break;
            }
            let _ = poll_trigger(&mut wrapped, &mut shutdown, &task);
            polls += 1;
        }
        assert!(polls == 21);
        let mut complete = shutdown.wait_shutdown_complete();
        assert!(poll_complete(&mut complete, &mut shutdown, &waiter) == Some("sleep done"));
    }

    // Same test, but now use a future that is instantly ready.
    {
        let task = Task::new();
        let mut shutdown = ShutdownManager::new();

        let mut wrapped = shutdown.wrap_trigger_shutdown("stop", std::future::ready(()));
        assert!(poll_trigger(&mut wrapped, &mut shutdown, &task) == Some(()));

        let mut triggered = shutdown.wait_shutdown_triggered();
        assert!(poll_triggered(&mut triggered, &mut shutdown, &task) == Some("stop"));
        let mut complete = shutdown.wait_shutdown_complete();
        assert!(poll_complete(&mut complete, &mut shutdown, &task) == Some("stop"));
    }
}
