use std::pin::Pin;
use std::sync::Arc;
use std::sync::Barrier;
use std::task::Context;
use std::task::Poll;
use std::time::Duration;
use std::time::Instant;

use exit_future::group::Group;
use exit_future::race::until_step;
use exit_future::signal;
use exit_future::Exit;
use exit_future::Signal;
use exit_future::fire_outcome;
use futures::channel::mpsc;
use futures::channel::oneshot;
use futures::executor::block_on;
use futures::executor::ThreadPool;
use futures::future::join;
use futures::future::join3;
use futures::future::lazy;
use futures::future::pending;
use futures::future::ready;
use futures::Future;
use futures::StreamExt;
use futures_timer::Delay;

/// `Exit` driven as a future, through its public poll step.
struct ExitFut(Exit);

impl Future for ExitFut {
    type Output = ();

    fn poll(self: Pin<&mut Self>, cx: &mut Context<'_>) -> Poll<()> {
        if self.get_mut().0.poll_event(cx) {
            Poll::Ready(())
        } else {
            Poll::Pending
        }
    }
}

/// The race combinator, assembled around the library's verified per-poll
/// decision `until_step`.
struct Until<F> {
    exit: Exit,
    work: F,
}

impl<F: Future + Unpin> Future for Until<F> {
    type Output = Option<F::Output>;

    fn poll(self: Pin<&mut Self>, cx: &mut Context<'_>) -> Poll<Self::Output> {
        let this = self.get_mut();
        let exit_ready = this.exit.poll_event(cx);
        let work = match Pin::new(&mut this.work).poll(cx) {
            Poll::Ready(v) => Some(v),
            Poll::Pending => None,
        };
        match until_step(exit_ready, work) {
            Some(outcome) => Poll::Ready(outcome),
            None => Poll::Pending,
        }
    }
}

fn until<F: Future + Unpin>(exit: Exit, work: F) -> Until<F> {
    Until { exit, work }
}

fn is_send_and_sync<T: Send + Sync>() {}

#[test]
fn it_works() {
    let (signal, exit_a) = signal();
    let exit_b = exit_a.clone();
    let exit_c = exit_b.clone();

    let pool = ThreadPool::builder().pool_size(2).create().unwrap();
    let barrier = Arc::new(Barrier::new(2));
    let task_barrier = barrier.clone();
    let (done_tx, done_rx) = oneshot::channel::<()>();

    pool.spawn_ok(async move {
        let barrier = lazy(move |_| {
            task_barrier.wait();
        });

        join3(ExitFut(exit_a), ExitFut(exit_b), barrier).await;
        let _ = done_tx.send(());
    });

    barrier.wait();
    signal.fire().unwrap();

    block_on(done_rx).unwrap();
    exit_c.wait()
}

#[test]
fn drop_signal() {
    let (signal, exit) = signal();

    let pool = ThreadPool::new().unwrap();
    pool.spawn_ok(async move {
        Delay::new(Duration::from_secs(1)).await;
        drop(signal)
    });

    exit.wait()
}

#[test]
fn many_exit_signals() {
    let pool = ThreadPool::new().unwrap();
    let (signal, exit) = signal();
    let (tx, rx) = mpsc::unbounded::<()>();

    for _ in 0..100 {
        let exit = exit.clone();
        let tx = tx.clone();
        pool.spawn_ok(async move {
            Delay::new(Duration::from_secs(1)).await;
            ExitFut(exit).await;
            let _ = tx.unbounded_send(());
        });
    }
    drop(tx);

    signal.fire().unwrap();

    let finished = block_on(rx.collect::<Vec<()>>());
    assert_eq!(finished.len(), 100);
}

#[test]
fn exit_signal_are_send_and_sync() {
    is_send_and_sync::<Exit>();
    is_send_and_sync::<Signal>();
}

#[test]
fn work_until() {
    let (signal, exit) = signal();
    let work_a = until(exit.clone(), ready(5));
    assert_eq!(block_on(work_a), Some(5));

    signal.fire().unwrap();
    let work_b = until(exit, pending::<()>());
    assert_eq!(block_on(work_b), None);
}

#[test]
fn works_from_other_thread() {
    let (signal, exit) = signal();

    let pool = ThreadPool::new().unwrap();
    pool.spawn_ok(async move {
        Delay::new(Duration::from_millis(2500)).await;
        signal.fire().unwrap();
    });

    block_on(ExitFut(exit));
}

#[test]
fn clone_works() {
    let (_signal, mut exit) = signal();

    let future = lazy(move |cx| {
        let _ = exit.poll_event(cx);

        let mut exit2 = exit.clone();
        let _ = exit2.poll_event(cx);
    });

    block_on(future)
}

#[test]
fn scenario_two_concurrent_waiters() {
    let pool = ThreadPool::builder().pool_size(3).create().unwrap();
    let (signal, exit) = signal();
    let exit2 = exit.clone();
    let exit3 = exit.clone();
    let start = Instant::now();

    pool.spawn_ok(async move {
        Delay::new(Duration::from_secs(1)).await;
        signal.fire().unwrap();
    });

    let (tx1, rx1) = oneshot::channel::<Duration>();
    let (tx2, rx2) = oneshot::channel::<Duration>();
    pool.spawn_ok(async move {
        ExitFut(exit).await;
        let _ = tx1.send(start.elapsed());
    });
    pool.spawn_ok(async move {
        ExitFut(exit2).await;
        let _ = tx2.send(start.elapsed());
    });

    exit3.wait();
    assert!(start.elapsed() >= Duration::from_millis(900));

    let (elapsed1, elapsed2) = block_on(join(rx1, rx2));
    assert!(elapsed1.unwrap() >= Duration::from_millis(900));
    assert!(elapsed2.unwrap() >= Duration::from_millis(900));
}

#[test]
fn wait_after_fire_returns_immediately() {
    let (signal, exit) = signal();
    signal.fire().unwrap();

    let start = Instant::now();
    exit.wait();
    assert!(start.elapsed() < Duration::from_millis(500));
}

#[test]
fn double_fire_is_harmless() {
    let (signal, exit) = signal();
    assert!(signal.fire().is_ok());
    assert!(signal.fire().is_ok());
    drop(signal);
    exit.wait();
}

#[test]
fn race_bias_prefers_exit() {
    assert_eq!(until_step(true, Some(5)), Some(None));
    assert_eq!(until_step(true, None::<i32>), Some(None));
    assert_eq!(until_step(false, Some(5)), Some(Some(5)));
    assert_eq!(until_step(false, None::<i32>), None);
}

#[test]
fn fire_outcome_mirrors_delivery() {
    assert!(fire_outcome(Ok(())).is_ok());
    assert!(fire_outcome(Err(())).is_err());
}

#[test]
fn group_fire_resolves_every_clone() {
    let mut g = Group::new();
    let second = g.clone_exit(0);
    let third = g.clone_exit(second);

    assert!(!g.poll_exit(0));
    assert!(g.fire().is_ok());
    assert!(g.poll_exit(0));
    assert!(g.poll_exit(second));
    assert!(g.poll_exit(third));
}

#[test]
fn group_drop_signal_acts_as_fire() {
    let mut g = Group::new();
    let second = g.clone_exit(0);

    assert!(!g.poll_exit(second));
    g.drop_signal();
    assert!(g.poll_exit(0));
    assert!(g.poll_exit(second));
}

#[test]
fn group_late_clone_observes_event() {
    let mut g = Group::new();
    assert!(g.fire().is_ok());

    let late = g.clone_exit(0);
    assert!(g.poll_exit(late));
}

#[test]
fn group_wait_is_idempotent() {
    let mut g = Group::new();
    assert!(g.fire().is_ok());

    g.wait_exit(0);
    g.wait_exit(0);
    assert!(g.poll_exit(0));
}

#[test]
fn group_dropped_clone_disturbs_nothing() {
    let mut g = Group::new();
    let second = g.clone_exit(0);

    g.drop_exit(0);
    assert!(g.fire().is_ok());
    assert!(g.poll_exit(second));
}
