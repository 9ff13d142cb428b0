use async_mutex::queue::cell::{
    claim, phase, write_if_empty, AtomicCell, Claim, OnceCell, Phase, INIT, UNINIT, WORKING,
};
use async_mutex::queue::{enqueue, next_waiter, Queue};
use async_mutex::spin::{acquired, await_signal, lower, raise, try_raise};
use async_mutex::waker::Waker;
use async_mutex::Flag;
use std::collections::VecDeque;
use std::sync::atomic::{AtomicUsize, Ordering};
use std::sync::Arc;
use std::task::Wake;

struct Tally {
    count: AtomicUsize,
}

impl Wake for Tally {
    fn wake(self: Arc<Self>) {
        self.count.fetch_add(1, Ordering::SeqCst);
    }
}

fn tally() -> (Arc<Tally>, std::task::Waker) {
    let tally = Arc::new(Tally { count: AtomicUsize::new(0) });
    (tally.clone(), std::task::Waker::from(tally))
}

#[test]
fn spin_acquired_goes_by_the_outcome() {
    assert!(acquired(Ok(false)));
    assert!(!acquired(Err(true)));
}

#[test]
fn spin_flag_is_raised_once() {
    let flag = Flag::new(false);
    assert!(try_raise(&flag));
    assert!(!try_raise(&flag));
    assert!(!raise(&flag, 0));
    assert!(!raise(&flag, 10));
    lower(&flag);
    assert!(raise(&flag, 10));
    assert!(flag.load(Ordering::SeqCst));
    lower(&flag);
    assert!(!flag.load(Ordering::SeqCst));
    assert!(raise(&flag, 0));
}

#[test]
fn spin_await_signal_counts_down() {
    let quiet = Flag::new(false);
    assert_eq!(await_signal(&quiet, 1), 0);
    assert_eq!(await_signal(&quiet, 9), 0);
    let raised = Flag::new(true);
    assert_eq!(await_signal(&raised, 1), 0);
    assert_eq!(await_signal(&raised, 9), 8);
}

#[test]
fn waker_async_notifies_the_task() {
    let (tally, waker) = tally();
    let twin = waker.clone();
    Waker::from(twin).wake();
    assert_eq!(tally.count.load(Ordering::SeqCst), 1);
    Waker::from(waker).wake();
    assert_eq!(tally.count.load(Ordering::SeqCst), 2);
}

#[test]
fn waker_from_makes_the_async_variant() {
    let (_, waker) = tally();
    assert!(matches!(Waker::from(waker), Waker::Async(_)));
    assert!(matches!(Waker::sync(Arc::new(Flag::new(false))), Waker::Sync(_)));
}

#[test]
fn waker_sync_raises_the_flag() {
    let signal = Arc::new(Flag::new(false));
    let waiter = Waker::sync(signal.clone());
    assert!(!signal.load(Ordering::SeqCst));
    assert_eq!(await_signal(&signal, 3), 0);
    waiter.wake();
    assert!(signal.load(Ordering::SeqCst));
    assert_eq!(await_signal(&signal, 3), 2);
}

#[test]
fn queue_storage_is_first_in_first_out() {
    let mut waiters = VecDeque::new();
    assert!(next_waiter(&mut waiters).is_none());
    assert!(waiters.is_empty());
    let first = Arc::new(Flag::new(false));
    let second = Arc::new(Flag::new(false));
    enqueue(&mut waiters, Waker::sync(first.clone()));
    enqueue(&mut waiters, Waker::sync(second.clone()));
    assert_eq!(waiters.len(), 2);
    match next_waiter(&mut waiters) {
        Some(Waker::Sync(signal)) => assert!(Arc::ptr_eq(&signal, &first)),
        _ => panic!("the oldest waiter did not come out"),
    }
    assert_eq!(waiters.len(), 1);
    match next_waiter(&mut waiters) {
        Some(Waker::Sync(signal)) => assert!(Arc::ptr_eq(&signal, &second)),
        _ => panic!("the second waiter did not come out"),
    }
    assert!(next_waiter(&mut waiters).is_none());
}

#[test]
fn queue_wake_on_empty_does_nothing() {
    let queue = Queue::new();
    queue.wake();
    queue.wake();
    let signal = Arc::new(Flag::new(false));
    queue.push(Waker::sync(signal.clone()));
    assert!(!signal.load(Ordering::SeqCst));
    queue.wake();
    assert!(signal.load(Ordering::SeqCst));
}

#[test]
fn queue_wakes_one_per_call_oldest_first() {
    let queue = Queue::new();
    let signals: Vec<Arc<Flag>> = (0..3).map(|_| Arc::new(Flag::new(false))).collect();
    let (tally, waker) = tally();
    queue.push(Waker::sync(signals[0].clone()));
    queue.push(Waker::from(waker));
    queue.push(Waker::sync(signals[1].clone()));
    queue.push(Waker::sync(signals[2].clone()));

    let seen = |signals: &Vec<Arc<Flag>>| -> Vec<bool> {
        signals.iter().map(|s| s.load(Ordering::SeqCst)).collect()
    };
    assert_eq!(seen(&signals), vec![false, false, false]);
    queue.wake();
    assert_eq!(seen(&signals), vec![true, false, false]);
    assert_eq!(tally.count.load(Ordering::SeqCst), 0);
    queue.wake();
    assert_eq!(seen(&signals), vec![true, false, false]);
    assert_eq!(tally.count.load(Ordering::SeqCst), 1);
    queue.wake();
    assert_eq!(seen(&signals), vec![true, true, false]);
    queue.wake();
    assert_eq!(seen(&signals), vec![true, true, true]);
    queue.wake();
    assert_eq!(tally.count.load(Ordering::SeqCst), 1);
}

#[test]
fn phase_reads_the_state() {
    assert_eq!(phase(UNINIT), Phase::Empty);
    assert_eq!(phase(WORKING), Phase::Writing);
    assert_eq!(phase(INIT), Phase::Written);
    assert_eq!(phase(200), Phase::Written);
}

#[test]
fn claim_follows_the_state_found() {
    assert_eq!(claim(Ok(UNINIT)), Claim::Won);
    assert_eq!(claim(Err(WORKING)), Claim::Busy);
    assert_eq!(claim(Err(INIT)), Claim::Ready);
    assert_eq!((UNINIT, WORKING, INIT), (0, 1, 2));
}

#[test]
fn once_cell_is_written_once() {
    let cell: OnceCell<u32> = OnceCell::new();
    assert!(cell.try_get().is_none());
    let calls = AtomicUsize::new(0);
    let first = *cell.get_or_set(|| {
        calls.fetch_add(1, Ordering::SeqCst);
        7
    });
    let second = *cell.get_or_set(|| {
        calls.fetch_add(1, Ordering::SeqCst);
        8
    });
    assert_eq!(first, 7);
    assert_eq!(second, 7);
    assert_eq!(calls.load(Ordering::SeqCst), 1);
    assert_eq!(cell.try_get(), Some(&7));
    assert_eq!(*cell.get_or_default(), 7);
}

#[test]
fn once_cell_get_or_default_writes_the_default() {
    let cell: OnceCell<Vec<u8>> = OnceCell::new();
    assert!(cell.get_or_default().is_empty());
    assert_eq!(cell.try_set(vec![1]), Err(&Vec::new()));
    let number: OnceCell<i64> = OnceCell::new();
    assert_eq!(*number.get_or_default(), 0);
    assert_eq!(*number.get_or_set(|| 5), 0);
}

#[test]
fn once_cell_try_set_writes_an_empty_cell_only() {
    let cell: OnceCell<&str> = OnceCell::new();
    assert_eq!(cell.try_set("one"), Ok(()));
    assert_eq!(cell.try_set("two"), Err(&"one"));
    assert_eq!(cell.try_get(), Some(&"one"));
    assert_eq!(*cell.get_or_set(|| "three"), "one");
}

#[test]
fn once_cell_new_init_is_written_from_the_start() {
    let cell = OnceCell::new_init(3u8);
    assert_eq!(cell.try_get(), Some(&3));
    assert_eq!(cell.try_set(4), Err(&3));
    assert_eq!(*cell.get_or_set(|| 5), 3);
    assert_eq!(*cell.get_or_default(), 3);
}

#[test]
fn write_if_empty_keeps_a_full_slot() {
    let mut slot = None;
    assert_eq!(write_if_empty(&mut slot, 1), Ok(()));
    assert_eq!(slot, Some(1));
    assert_eq!(write_if_empty(&mut slot, 2), Err(2));
    assert_eq!(slot, Some(1));
}

#[test]
fn atomic_cell_takes_and_writes() {
    let cell = AtomicCell::new(String::from("a"));
    assert_eq!(cell.try_write(String::from("b")), Err(String::from("b")));
    assert_eq!(cell.try_take(), Some(String::from("a")));
    assert_eq!(cell.try_take(), None);
    assert_eq!(cell.try_write(String::from("c")), Ok(()));
    assert_eq!(cell.try_write(String::from("d")), Err(String::from("d")));
    assert_eq!(cell.try_take(), Some(String::from("c")));
    assert_eq!(cell.try_take(), None);
}

#[test]
fn cells_are_shareable_between_threads() {
    fn shareable<T: Send + Sync>() {}
    shareable::<Queue>();
    shareable::<OnceCell<u32>>();
    shareable::<AtomicCell<u32>>();
    shareable::<Waker>();
}
