//! The lock with a value attached.
use vstd::prelude::*;
use std::rc::Rc;
use std::sync::Arc;
use crate::guards::atomic::AtomicMutexFuture;
use crate::guards::atomic::AtomicMutexGuard;
use crate::guards::owned::OwnedMutexFuture;
use crate::guards::owned::OwnedMutexGuard;
use crate::guards::MutexFuture;
use crate::guards::MutexGuard;
use crate::movable::MovableMutex;
use crate::storage::contents;
use crate::storage::enter;
use crate::storage::leave;
use crate::storage::unwrap_cell;

verus! {

/// What an attempt on the lock takes out of the mutex: the stored value if the
/// attempt won the lock, nothing if it lost.
pub open spec fn taken<T>(won: bool, stored: Option<T>) -> Option<T> {
    if won {
        stored
    } else {
        None
    }
}

/// What an attempt on the lock leaves in the mutex: nothing if it won, what was
/// there if it lost.
pub open spec fn kept<T>(won: bool, stored: Option<T>) -> Option<T> {
    if won {
        None
    } else {
        stored
    }
}

/// Whether an attempt gives the lock back at once: it won a mutex that has no
/// value to go with the lock.
pub open spec fn goes_back<T>(won: bool, stored: Option<T>) -> bool {
    won && stored is None
}

/// Settles an attempt on the lock, given whether it won and the place where
/// the value lies. A winner takes the value with it; a loser takes nothing and
/// leaves the place as it is. The second result says that the lock is to be
/// released at once, because it was won and no value came with it.
pub fn settle<T>(won: bool, stored: &mut Option<T>) -> (r: (Option<T>, bool))
    ensures
        r.0 == taken(won, *old(stored)),
        *final(stored) == kept(won, *old(stored)),
        r.1 == goes_back(won, *old(stored)),
{
    if won {
        let value = stored.take();
        let back = value.is_none();
        (value, back)
    } else {
        (None, false)
    }
}

/// Puts `value` back into the place where the value lies, for a release.
pub fn restore<T>(stored: &mut Option<T>, value: T)
    ensures
        *final(stored) == Some(value),
{
    *stored = Some(value);
}

/// A mutually exclusive lock, attached to a value.
///
/// The value lies in the mutex while the lock is free. Whoever takes the lock
/// takes the value out with it, keeps it in a guard, and puts it back when the
/// guard is released. So the value is never in two hands, and a mutex whose
/// guard was dropped without a release has no value to give. Because the value
/// moves, `T` is a sized type.
///
/// Every acquisition is an attempt on the lock followed by [`settle`] on the
/// place of the value; every release is [`restore`] followed by an unlock.
#[verifier::reject_recursive_types(T)]
#[derive(Debug)]
pub struct Mutex<T> {
    pub(crate) inner: MovableMutex,
    pub(crate) data: std::sync::Mutex<Option<T>>,
}

impl<T> Mutex<T> {
    /// The lock that this mutex is built on.
    pub closed spec fn state(&self) -> MovableMutex {
        self.inner
    }

    /// Creates a new mutex, unlocked, around `data`.
    pub fn new(data: T) -> Self {
        Mutex { inner: MovableMutex::new(), data: std::sync::Mutex::new(Some(data)) }
    }

    /// Creates a new mutex from its parts: the lock in the state it is in, and
    /// the value.
    pub fn from_raw_parts(mutex: MovableMutex, data: T) -> (whole: Self)
        ensures
            whole.state() == mutex,
    {
        Mutex { inner: mutex, data: std::sync::Mutex::new(Some(data)) }
    }

    /// Consumes the mutex and returns its value. To own the mutex is to know
    /// that no guard borrows it; `None` means that a guard was dropped without
    /// a release, and the value with it.
    pub fn into_inner(self) -> (data: Option<T>) {
        unwrap_cell(self.data)
    }

    /// Consumes the mutex and returns its parts: the lock as it is, and the
    /// value, or `None` in place of a value that was lost with its guard.
    pub fn into_raw_parts(self) -> (parts: (MovableMutex, Option<T>))
        ensures
            parts.0 == self.state(),
    {
        (self.inner, unwrap_cell(self.data))
    }

    /// Attempts to lock the mutex: a guard if this call took it, `None` if it
    /// was owned. Never waits for the lock. The attempt is one exchange on the
    /// flag; [`settle`] says what is taken for each outcome of it, and the
    /// guard holds exactly what was taken.
    pub fn try_lock(&self) -> (guard: Option<MutexGuard<'_, T>>)
        ensures
            guard matches Some(g) ==> g.is_active() && g.mutex() == self,
    {
        let won = self.inner.try_lock();
        let mut access = enter(&self.data);
        let (taken, back) = settle(won, contents(&mut access));
        leave(access);
        if back {
            let _ = self.inner.unlock();
        }
        MutexGuard::granted(self, taken)
    }

    /// Waits for the mutex on the calling thread, for as long as `spins`
    /// allows: a guard once this call has taken it, `None` if `spins` ran out
    /// first. See [`MovableMutex::lock_blocking`].
    pub fn lock_blocking(&self, spins: u64) -> (guard: Option<MutexGuard<'_, T>>)
        ensures
            guard matches Some(g) ==> g.is_active() && g.mutex() == self,
    {
        let won = self.inner.lock_blocking(spins);
        let mut access = enter(&self.data);
        let (taken, back) = settle(won, contents(&mut access));
        leave(access);
        if back {
            let _ = self.inner.unlock();
        }
        MutexGuard::granted(self, taken)
    }

    /// Returns a future that resolves to a guard when the mutex is acquired.
    pub fn lock(&self) -> (future: MutexFuture<'_, T>)
        ensures
            !future.is_terminated(),
            future.mutex() == Some(self),
    {
        MutexFuture::new(self)
    }

    /// [`Mutex::try_lock`] for a mutex behind an `Rc`: the guard keeps the
    /// handle.
    pub fn try_lock_owned(self: Rc<Self>) -> (guard: Option<OwnedMutexGuard<T>>)
        ensures
            guard matches Some(g) ==> g.is_active() && g.mutex() == self,
    {
        let won = self.inner.try_lock();
        let mut access = enter(&self.data);
        let (taken, back) = settle(won, contents(&mut access));
        leave(access);
        if back {
            let _ = self.inner.unlock();
        }
        OwnedMutexGuard::granted(self, taken)
    }

    /// [`Mutex::lock_blocking`] for a mutex behind an `Rc`.
    pub fn lock_blocking_owned(self: Rc<Self>, spins: u64) -> (guard: Option<OwnedMutexGuard<T>>)
        ensures
            guard matches Some(g) ==> g.is_active() && g.mutex() == self,
    {
        let won = self.inner.lock_blocking(spins);
        let mut access = enter(&self.data);
        let (taken, back) = settle(won, contents(&mut access));
        leave(access);
        if back {
            let _ = self.inner.unlock();
        }
        OwnedMutexGuard::granted(self, taken)
    }

    /// [`Mutex::lock`] for a mutex behind an `Rc`.
    pub fn lock_owned(self: Rc<Self>) -> (future: OwnedMutexFuture<T>)
        ensures
            !future.is_terminated(),
            future.mutex() == Some(self),
    {
        OwnedMutexFuture::new(self)
    }

    /// [`Mutex::try_lock`] for a mutex behind an `Arc`: the guard keeps the
    /// handle.
    pub fn try_lock_atomic(self: Arc<Self>) -> (guard: Option<AtomicMutexGuard<T>>)
        ensures
            guard matches Some(g) ==> g.is_active() && g.mutex() == self,
    {
        let won = self.inner.try_lock();
        let mut access = enter(&self.data);
        let (taken, back) = settle(won, contents(&mut access));
        leave(access);
        if back {
            let _ = self.inner.unlock();
        }
        AtomicMutexGuard::granted(self, taken)
    }

    /// [`Mutex::lock_blocking`] for a mutex behind an `Arc`.
    pub fn lock_blocking_atomic(self: Arc<Self>, spins: u64) -> (guard: Option<AtomicMutexGuard<T>>)
        ensures
            guard matches Some(g) ==> g.is_active() && g.mutex() == self,
    {
        let won = self.inner.lock_blocking(spins);
        let mut access = enter(&self.data);
        let (taken, back) = settle(won, contents(&mut access));
        leave(access);
        if back {
            let _ = self.inner.unlock();
        }
        AtomicMutexGuard::granted(self, taken)
    }

    /// [`Mutex::lock`] for a mutex behind an `Arc`.
    pub fn lock_atomic(self: Arc<Self>) -> (future: AtomicMutexFuture<T>)
        ensures
            !future.is_terminated(),
            future.mutex() == Some(self),
    {
        AtomicMutexFuture::new(self)
    }
}

} // verus!
