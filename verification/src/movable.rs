//! The lock without a value: one flag that says whether it is owned, and the
//! queue of those who wait for it.
use vstd::prelude::*;
use core::sync::atomic::Ordering;
use std::rc::Rc;
use std::sync::Arc;
use crate::queue::Queue;
use crate::spin::acquired;
use crate::spin::await_signal;
use crate::storage::share;
use crate::waker::duplicate;
use crate::waker::Waker;
use crate::Flag;
use crate::Poll;
use crate::FALSE;
use crate::TRUE;

verus! {

/// Whether a release found the lock owned, as a function of the value that
/// its swap found in the flag.
pub open spec fn was_owned(prior: bool) -> bool {
    prior == TRUE
}

/// Says whether a release found the lock owned, from the value that the flag
/// had when it was lowered. Only then is a waiter notified.
pub fn was_held(prior: bool) -> (held: bool)
    ensures
        held == was_owned(prior),
{
    prior == TRUE
}

/// What one round of a blocking acquisition comes to.
#[derive(Clone, Copy, Debug, PartialEq, Eq, Structural)]
pub enum Round {
    /// The attempt of this round took the lock: the call returns with it.
    Taken,
    /// The attempt failed and no spins are left: the call returns without the
    /// lock, and queues nothing.
    GaveUp,
    /// The attempt failed and spins are left: the call queues one fresh flag
    /// and spins on it, then goes into another round.
    Wait,
}

/// What a round comes to, for the outcome of its attempt and the spins that
/// are left.
pub open spec fn round_of(won: bool, left: u64) -> Round {
    if won {
        Round::Taken
    } else if left == 0 {
        Round::GaveUp
    } else {
        Round::Wait
    }
}

/// Decides what a round of a blocking acquisition does next.
pub fn round(won: bool, left: u64) -> (r: Round)
    ensures
        r == round_of(won, left),
{
    if won {
        Round::Taken
    } else if left == 0 {
        Round::GaveUp
    } else {
        Round::Wait
    }
}

/// A mutex that is not attached to any value.
///
/// At most one acquisition is outstanding at any time: the flag is raised by
/// the one compare-exchange that finds it lowered, and lowered by `unlock`
/// alone.
#[derive(Debug)]
pub struct MovableMutex {
    pub(crate) locked: Flag,
    pub(crate) queue: Queue,
}

impl MovableMutex {
    /// Creates a new mutex, unlocked.
    pub fn new() -> Self {
        MovableMutex { locked: Flag::new(FALSE), queue: Queue::new() }
    }

    /// Creates a new mutex that starts locked.
    pub fn locked() -> Self {
        MovableMutex { locked: Flag::new(TRUE), queue: Queue::new() }
    }

    /// Attempts to lock the mutex: `true` if this call took it, `false` if it
    /// was owned. Never waits, and changes nothing when it fails.
    pub fn try_lock(&self) -> (won: bool) {
        acquired(self.locked.compare_exchange(FALSE, TRUE, Ordering::Acquire, Ordering::Acquire))
    }

    /// Waits for the mutex on the calling thread: `true` once this call has
    /// taken it, `false` if `spins` ran out first.
    ///
    /// Each round tries the lock, and [`round`] says what follows: the call
    /// returns `true` after an attempt of its own has won and only then, it
    /// returns `false` after a lost attempt with no spins left and only then,
    /// and after any other lost attempt it queues one fresh flag and spins
    /// until a release raises it. Being woken grants another attempt, not the
    /// lock. `spins` bounds the looks at such flags, over all rounds; with none
    /// left the call is a single `try_lock`. A call that gives up leaves the
    /// flag of its last wait queued, where a later release spends one wake on
    /// it.
    pub fn lock_blocking(&self, spins: u64) -> (won: bool) {
        let mut left: u64 = spins;
        loop
            decreases left,
        {
            match round(self.try_lock(), left) {
                Round::Taken => {
                    return true;
                },
                Round::GaveUp => {
                    return false;
                },
                Round::Wait => {
                    let signal = Arc::new(Flag::new(FALSE));
                    self.queue.push(Waker::sync(share(&signal)));
                    left = await_signal(&signal, left);
                },
            }
        }
    }

    /// One poll of an acquisition: takes the mutex if it is free, and else
    /// queues a copy of `waker` so that a release polls the task again.
    /// `true` means that the mutex was taken and nothing was queued.
    pub fn poll_lock(&self, waker: &core::task::Waker) -> (won: bool) {
        if self.try_lock() {
            return true;
        }
        self.queue.push(Waker::from(duplicate(waker)));
        false
    }

    /// Returns a future that resolves when the mutex is acquired by reference.
    pub fn lock(&self) -> (future: MovableMutexFuture<'_>)
        ensures
            future.mutex() == self,
    {
        MovableMutexFuture { mutex: self }
    }

    /// Returns a future that resolves when the mutex is acquired by `Rc`.
    pub fn lock_owned(self: Rc<Self>) -> (future: OwnedMovableMutexFuture)
        ensures
            future.mutex() == self,
    {
        OwnedMovableMutexFuture { mutex: self }
    }

    /// Returns a future that resolves when the mutex is acquired by `Arc`.
    pub fn lock_atomic(self: Arc<Self>) -> (future: AtomicMovableMutexFuture)
        ensures
            future.mutex() == self,
    {
        AtomicMovableMutexFuture { mutex: self }
    }

    /// Unlocks the mutex and notifies the oldest waiter, if there is one.
    ///
    /// Only the holder may call this. The call is checked all the same:
    /// `false` means that the mutex was not locked, and then nobody is
    /// notified.
    pub fn unlock(&self) -> (held: bool) {
        let held = was_held(self.locked.swap(FALSE, Ordering::Release));
        if held {
            self.queue.wake();
        }
        held
    }
}

/// Future of [`MovableMutex::lock`].
pub struct MovableMutexFuture<'a> {
    mutex: &'a MovableMutex,
}

/// Future of [`MovableMutex::lock_owned`].
pub struct OwnedMovableMutexFuture {
    mutex: Rc<MovableMutex>,
}

/// Future of [`MovableMutex::lock_atomic`].
pub struct AtomicMovableMutexFuture {
    mutex: Arc<MovableMutex>,
}

/// What a poll reports for the outcome of [`MovableMutex::poll_lock`].
pub open spec fn progress(won: bool) -> Poll<()> {
    if won {
        Poll::Ready(())
    } else {
        Poll::Pending
    }
}

/// Turns the outcome of [`MovableMutex::poll_lock`] into what a poll reports.
pub fn report(won: bool) -> (r: Poll<()>)
    ensures
        r == progress(won),
{
    if won {
        Poll::Ready(())
    } else {
        Poll::Pending
    }
}

impl<'a> MovableMutexFuture<'a> {
    /// The mutex that this future acquires.
    pub closed spec fn mutex(&self) -> &MovableMutex {
        self.mutex
    }

    /// Takes the mutex if it is free; else queues `waker` and reports
    /// `Pending`.
    pub fn poll(&self, waker: &core::task::Waker) -> (r: Poll<()>) {
        report(self.mutex.poll_lock(waker))
    }
}

impl OwnedMovableMutexFuture {
    /// The mutex that this future acquires.
    pub closed spec fn mutex(&self) -> Rc<MovableMutex> {
        self.mutex
    }

    /// Takes the mutex if it is free; else queues `waker` and reports
    /// `Pending`.
    pub fn poll(&self, waker: &core::task::Waker) -> (r: Poll<()>) {
        report(self.mutex.poll_lock(waker))
    }
}

impl AtomicMovableMutexFuture {
    /// The mutex that this future acquires.
    pub closed spec fn mutex(&self) -> Arc<MovableMutex> {
        self.mutex
    }

    /// Takes the mutex if it is free; else queues `waker` and reports
    /// `Pending`.
    pub fn poll(&self, waker: &core::task::Waker) -> (r: Poll<()>) {
        report(self.mutex.poll_lock(waker))
    }
}

} // verus!
