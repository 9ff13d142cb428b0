//! The queue of parties that wait for the lock, oldest first.
use vstd::prelude::*;
use std::collections::VecDeque;
use crate::spin::lower;
use crate::spin::raise;
use crate::spin::SPIN_LIMIT;
use crate::storage::contents;
use crate::storage::enter;
use crate::storage::leave;
use crate::waker::Waker;
use crate::Flag;
use crate::FALSE;

pub mod cell;

verus! {

/// The waiter that the next release notifies: the oldest, if there is one.
pub open spec fn front(waiters: Seq<Waker>) -> Option<Waker> {
    if waiters.len() > 0 {
        Some(waiters[0])
    } else {
        None
    }
}

/// The waiters that stay queued after the next release.
pub open spec fn rest(waiters: Seq<Waker>) -> Seq<Waker> {
    if waiters.len() > 0 {
        waiters.skip(1)
    } else {
        waiters
    }
}

/// Queues `v` behind all waiters that are queued already.
pub fn enqueue(waiters: &mut VecDeque<Waker>, v: Waker)
    ensures
        final(waiters)@ == old(waiters)@.push(v),
{
    waiters.push_back(v);
}

/// Takes the oldest waiter off the queue, if there is one. The others keep
/// their order.
pub fn next_waiter(waiters: &mut VecDeque<Waker>) -> (next: Option<Waker>)
    ensures
        next == front(old(waiters)@),
        final(waiters)@ == rest(old(waiters)@),
{
    let next = waiters.pop_front();
    assert(waiters@ =~= rest(old(waiters)@));
    next
}

/// The waiters of one lock, behind a spin flag. The storage comes into being
/// with the first push or wake, not before.
#[derive(Debug)]
pub struct Queue {
    locked: Flag,
    queue: cell::OnceCell<std::sync::Mutex<VecDeque<Waker>>>,
}

impl Queue {
    /// A queue without waiters.
    pub fn new() -> Self {
        Queue { locked: Flag::new(FALSE), queue: cell::OnceCell::new() }
    }

    /// Queues `v` behind the waiters that are there.
    pub fn push(&self, v: Waker) {
        let (held, mut access) = self.lock();
        enqueue(contents(&mut access), v);
        leave(access);
        self.unlock(held);
    }

    /// Notifies the oldest waiter and takes it off the queue. Does nothing if
    /// nobody waits. The waiter is notified while the flag is still raised, but
    /// after the storage has been left: a waiter that comes back to the queue
    /// from within its notification finds the storage free.
    pub fn wake(&self) {
        let (held, mut access) = self.lock();
        let next = next_waiter(contents(&mut access));
        leave(access);
        match next {
            Some(waiter) => waiter.wake(),
            None => {},
        }
        self.unlock(held);
    }

    /// Spins for the flag, makes the storage if this is its first use, and
    /// enters it. The flag goes with `true`; after [`SPIN_LIMIT`] failed
    /// attempts the caller enters without it, and the storage's own lock is
    /// what keeps it alone with the waiters.
    fn lock(&self) -> (entered: (bool, std::sync::MutexGuard<'_, VecDeque<Waker>>)) {
        let held = raise(&self.locked, SPIN_LIMIT);
        let access = enter(self.queue.get_or_default());
        (held, access)
    }

    /// Lowers the flag, if this caller raised it.
    fn unlock(&self, held: bool) {
        if held {
            lower(&self.locked);
        }
    }
}

} // verus!
