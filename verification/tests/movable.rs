use async_mutex::movable::{report, round, was_held, MovableMutex, Round};
use async_mutex::Poll;
use std::collections::VecDeque;
use std::rc::Rc;
use std::sync::atomic::{AtomicUsize, Ordering};
use std::sync::Arc;
use std::task::{Wake, Waker};

struct Counter {
    wakes: AtomicUsize,
}

impl Wake for Counter {
    fn wake(self: Arc<Self>) {
        self.wakes.fetch_add(1, Ordering::SeqCst);
    }
}

fn counting_waker() -> (Arc<Counter>, Waker) {
    let counter = Arc::new(Counter { wakes: AtomicUsize::new(0) });
    (counter.clone(), Waker::from(counter))
}

struct Ready {
    ids: std::sync::Mutex<VecDeque<usize>>,
}

struct Task {
    id: usize,
    ready: Arc<Ready>,
}

impl Wake for Task {
    fn wake(self: Arc<Self>) {
        self.ready.ids.lock().unwrap().push_back(self.id);
    }
}

fn next_ready(ready: &Ready) -> Option<usize> {
    ready.ids.lock().unwrap().pop_front()
}

/// Runs `tasks` tasks on one thread. Each takes the lock, keeps it over one
/// switch to the other tasks, adds one to the counter and unlocks. A task for
/// which `blocking` holds tries without queuing and comes back later; the
/// others poll a future and sleep until they are woken.
fn run_tasks(tasks: usize, blocking: fn(usize) -> bool) -> (u32, usize) {
    let mutex = MovableMutex::new();
    let mut data = 0u32;
    let ready = Arc::new(Ready { ids: std::sync::Mutex::new((0..tasks).collect()) });
    let wakers: Vec<Waker> = (0..tasks)
        .map(|id| Waker::from(Arc::new(Task { id, ready: ready.clone() })))
        .collect();
    let mut holding = vec![false; tasks];
    let mut done = 0;
    let mut pending = 0;

    while let Some(id) = next_ready(&ready) {
        if holding[id] {
            data += 1;
            assert!(mutex.unlock());
            holding[id] = false;
            done += 1;
        } else if blocking(id) {
            holding[id] = mutex.lock_blocking(0);
            ready.ids.lock().unwrap().push_back(id);
        } else {
            match mutex.lock().poll(&wakers[id]) {
                Poll::Ready(()) => {
                    holding[id] = true;
                    ready.ids.lock().unwrap().push_back(id);
                }
                Poll::Pending => pending += 1,
            }
        }
    }

    assert_eq!(done, tasks);
    (data, pending)
}

#[test]
fn movable_tasks_only_async() {
    let (data, pending) = run_tasks(1000, |_| false);
    assert_eq!(data, 1000);
    assert!(pending > 0);
}

#[test]
fn movable_tasks_only_blocking() {
    let (data, pending) = run_tasks(80, |_| true);
    assert_eq!(data, 80);
    assert_eq!(pending, 0);
}

#[test]
fn movable_tasks_mixed() {
    let (data, _) = run_tasks(1000, |id| id % 3 == 0);
    assert_eq!(data, 1000);
}

#[test]
fn movable_new_is_unlocked() {
    let mutex = MovableMutex::new();
    assert!(mutex.try_lock());
}

#[test]
fn movable_locked_starts_locked() {
    let mutex = MovableMutex::locked();
    assert!(!mutex.try_lock());
    assert!(mutex.unlock());
    assert!(mutex.try_lock());
}

#[test]
fn movable_try_lock_is_exclusive() {
    let mutex = MovableMutex::new();
    assert!(mutex.try_lock());
    assert!(!mutex.try_lock());
    assert!(!mutex.try_lock());
    assert!(mutex.unlock());
    assert!(mutex.try_lock());
    assert!(!mutex.try_lock());
}

#[test]
fn movable_unlock_of_a_free_lock_is_reported() {
    let mutex = MovableMutex::new();
    let (counter, waker) = counting_waker();
    assert!(mutex.try_lock());
    assert!(matches!(mutex.lock().poll(&waker), Poll::Pending));
    assert!(mutex.unlock());
    assert_eq!(counter.wakes.load(Ordering::SeqCst), 1);

    let (late, late_waker) = counting_waker();
    assert!(mutex.try_lock());
    assert!(matches!(mutex.lock().poll(&late_waker), Poll::Pending));
    assert!(mutex.unlock());
    assert!(!mutex.unlock());
    assert_eq!(late.wakes.load(Ordering::SeqCst), 1);
    assert_eq!(counter.wakes.load(Ordering::SeqCst), 1);
}

#[test]
fn movable_was_held_goes_by_the_prior_flag() {
    assert!(was_held(true));
    assert!(!was_held(false));
}

#[test]
fn movable_round_goes_by_attempt_and_spins() {
    assert_eq!(round(true, 0), Round::Taken);
    assert_eq!(round(true, 9), Round::Taken);
    assert_eq!(round(false, 0), Round::GaveUp);
    assert_eq!(round(false, 1), Round::Wait);
    assert_eq!(round(false, u64::MAX), Round::Wait);
}

#[test]
fn movable_report_maps_the_outcome() {
    assert!(matches!(report(true), Poll::Ready(())));
    assert!(matches!(report(false), Poll::Pending));
}

#[test]
fn movable_lock_blocking_takes_a_free_lock() {
    let mutex = MovableMutex::new();
    assert!(mutex.lock_blocking(0));
    assert!(!mutex.try_lock());
    assert!(mutex.unlock());
    assert!(mutex.lock_blocking(u64::MAX));
    assert!(!mutex.try_lock());
}

#[test]
fn movable_lock_blocking_gives_up_when_spins_run_out() {
    let mutex = MovableMutex::new();
    assert!(mutex.try_lock());
    assert!(!mutex.lock_blocking(0));
    assert!(!mutex.lock_blocking(1));
    assert!(!mutex.lock_blocking(25));
    assert!(mutex.unlock());
    assert!(mutex.lock_blocking(25));
}

#[test]
fn movable_lock_blocking_queues_one_flag_per_round() {
    let mutex = MovableMutex::new();
    let (counter, waker) = counting_waker();
    assert!(mutex.try_lock());
    // No spins: a single attempt, nothing queued.
    assert!(!mutex.lock_blocking(0));
    assert!(matches!(mutex.lock().poll(&waker), Poll::Pending));
    assert!(mutex.unlock());
    assert_eq!(counter.wakes.load(Ordering::SeqCst), 1);

    // With spins: one flag is queued, ahead of the task that polls later.
    let (second, second_waker) = counting_waker();
    assert!(mutex.try_lock());
    assert!(!mutex.lock_blocking(7));
    assert!(matches!(mutex.lock().poll(&second_waker), Poll::Pending));
    assert!(mutex.unlock());
    assert_eq!(second.wakes.load(Ordering::SeqCst), 0);
    assert!(mutex.try_lock());
    assert!(mutex.unlock());
    assert_eq!(second.wakes.load(Ordering::SeqCst), 1);
}

#[test]
fn movable_poll_takes_a_free_lock() {
    let mutex = MovableMutex::new();
    let (counter, waker) = counting_waker();
    let future = mutex.lock();
    assert!(matches!(future.poll(&waker), Poll::Ready(())));
    assert!(!mutex.try_lock());
    assert!(mutex.unlock());
    assert_eq!(counter.wakes.load(Ordering::SeqCst), 0);
}

#[test]
fn movable_poll_queues_the_waker() {
    let mutex = MovableMutex::new();
    let (counter, waker) = counting_waker();
    assert!(mutex.try_lock());
    let future = mutex.lock();
    assert!(matches!(future.poll(&waker), Poll::Pending));
    assert_eq!(counter.wakes.load(Ordering::SeqCst), 0);
    assert!(mutex.unlock());
    assert_eq!(counter.wakes.load(Ordering::SeqCst), 1);
    assert!(matches!(future.poll(&waker), Poll::Ready(())));
}

#[test]
fn movable_woken_waiter_may_lose_the_race() {
    let mutex = MovableMutex::new();
    let (counter, waker) = counting_waker();
    assert!(mutex.try_lock());
    let future = mutex.lock();
    assert!(matches!(future.poll(&waker), Poll::Pending));
    assert!(mutex.unlock());
    // A third party gets in between the wake and the retry.
    assert!(mutex.try_lock());
    assert!(matches!(future.poll(&waker), Poll::Pending));
    assert!(mutex.unlock());
    assert_eq!(counter.wakes.load(Ordering::SeqCst), 2);
    assert!(matches!(future.poll(&waker), Poll::Ready(())));
}

#[test]
fn movable_each_unlock_wakes_one_waiter_in_order() {
    let mutex = MovableMutex::new();
    assert!(mutex.try_lock());
    let mut counters = Vec::new();
    for _ in 0..5 {
        let (counter, waker) = counting_waker();
        assert!(matches!(mutex.lock().poll(&waker), Poll::Pending));
        counters.push(counter);
    }
    for round in 0..5 {
        assert!(mutex.unlock());
        for (i, counter) in counters.iter().enumerate() {
            let expected = if i <= round { 1 } else { 0 };
            assert_eq!(counter.wakes.load(Ordering::SeqCst), expected);
        }
        assert!(mutex.try_lock());
    }
    assert!(mutex.unlock());
    for counter in counters.iter() {
        assert_eq!(counter.wakes.load(Ordering::SeqCst), 1);
    }
}

#[test]
fn movable_abandoned_future_leaves_a_harmless_entry() {
    let mutex = MovableMutex::new();
    let (gone, gone_waker) = counting_waker();
    let (stays, stays_waker) = counting_waker();
    assert!(mutex.try_lock());
    {
        let future = mutex.lock();
        assert!(matches!(future.poll(&gone_waker), Poll::Pending));
    }
    assert!(matches!(mutex.lock().poll(&stays_waker), Poll::Pending));
    assert!(mutex.unlock());
    assert_eq!(gone.wakes.load(Ordering::SeqCst), 1);
    assert_eq!(stays.wakes.load(Ordering::SeqCst), 0);
    assert!(mutex.try_lock());
    assert!(mutex.unlock());
    assert_eq!(stays.wakes.load(Ordering::SeqCst), 1);
}

#[test]
fn movable_lock_owned_polls_through_an_rc() {
    let mutex = Rc::new(MovableMutex::new());
    let (counter, waker) = counting_waker();
    let first = mutex.clone().lock_owned();
    let second = mutex.clone().lock_owned();
    assert!(matches!(first.poll(&waker), Poll::Ready(())));
    assert!(matches!(second.poll(&waker), Poll::Pending));
    assert!(mutex.unlock());
    assert_eq!(counter.wakes.load(Ordering::SeqCst), 1);
    assert!(matches!(second.poll(&waker), Poll::Ready(())));
}

#[test]
fn movable_lock_atomic_polls_through_an_arc() {
    let mutex = Arc::new(MovableMutex::new());
    let (counter, waker) = counting_waker();
    let first = mutex.clone().lock_atomic();
    let second = mutex.clone().lock_atomic();
    assert!(matches!(first.poll(&waker), Poll::Ready(())));
    assert!(matches!(second.poll(&waker), Poll::Pending));
    assert!(mutex.unlock());
    assert_eq!(counter.wakes.load(Ordering::SeqCst), 1);
    assert!(matches!(second.poll(&waker), Poll::Ready(())));
}

#[test]
fn movable_is_shareable_between_threads() {
    fn shareable<T: Send + Sync>() {}
    shareable::<MovableMutex>();
    shareable::<async_mutex::movable::AtomicMovableMutexFuture>();
}
