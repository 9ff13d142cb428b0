//! Guard and future for a mutex behind an `Arc`.
use vstd::prelude::*;
use std::sync::Arc;
use crate::guards::ready;
use crate::regular::restore;
use crate::regular::settle;
use crate::regular::Mutex;
use crate::storage::contents;
use crate::storage::enter;
use crate::storage::leave;
use crate::waker::duplicate;
use crate::waker::Waker;
use crate::Poll;

verus! {

/// The lock on a [`Mutex`] behind an `Arc`, and its value. The guard keeps the
/// handle, so the mutex lives as long as the guard does.
#[verifier::reject_recursive_types(T)]
pub struct AtomicMutexGuard<T> {
    pub(crate) inner: Arc<Mutex<T>>,
    pub(crate) value: Option<T>,
}

impl<T> AtomicMutexGuard<T> {
    /// Whether the guard still holds the lock.
    pub closed spec fn is_active(&self) -> bool {
        self.value is Some
    }

    /// The mutex that the guard locks.
    pub closed spec fn mutex(&self) -> Arc<Mutex<T>> {
        self.inner
    }

    /// The protected value, as long as the guard is active.
    pub closed spec fn view(&self) -> T
        recommends
            self.is_active(),
    {
        self.value->0
    }

    /// The guard for a caller that has taken the lock of `inner` and `value`
    /// out of it.
    pub(crate) fn new(inner: Arc<Mutex<T>>, value: T) -> (guard: Self)
        ensures
            guard.is_active(),
            guard.mutex() == inner,
            guard@ == value,
    {
        AtomicMutexGuard { inner, value: Some(value) }
    }

    /// What an acquisition hands to its caller, for what it took out of the
    /// mutex: a guard around the value if it took one, nothing if not.
    pub(crate) fn granted(inner: Arc<Mutex<T>>, taken: Option<T>) -> (guard: Option<Self>)
        ensures
            taken is Some <==> guard is Some,
            guard matches Some(g) ==> g.is_active() && g.mutex() == inner && g@ == taken->0,
    {
        match taken {
            Some(value) => Some(Self::new(inner, value)),
            None => None,
        }
    }

    /// Shared access to the protected value.
    pub fn get(&self) -> (value: &T)
        requires
            self.is_active(),
        ensures
            *value == self@,
    {
        self.value.as_ref().unwrap()
    }

    /// Exclusive access to the protected value. What the caller leaves behind
    /// the reference is what the guard holds afterwards.
    pub fn get_mut(&mut self) -> (value: &mut T)
        requires
            old(self).is_active(),
        ensures
            *value == old(self)@,
            final(self).is_active(),
            final(self)@ == *final(value),
            final(self).mutex() == old(self).mutex(),
    {
        self.value.as_mut().unwrap()
    }

    /// Releases the lock if the guard is active: the guard's value goes back
    /// into the mutex by [`restore`], the lock is freed and the oldest waiter
    /// is notified. `true` means that this call did so; on a guard that was
    /// released before it does nothing and returns `false`.
    pub fn release(&mut self) -> (released: bool)
        ensures
            released == old(self).is_active(),
            !final(self).is_active(),
            final(self).mutex() == old(self).mutex(),
    {
        match self.value.take() {
            Some(value) => {
                let mut access = enter(&self.inner.data);
                restore(contents(&mut access), value);
                leave(access);
                let _ = self.inner.inner.unlock();
                true
            },
            None => false,
        }
    }

    /// Releases the lock and uses the guard up.
    pub fn unlock(self) {
        let mut guard = self;
        let _ = guard.release();
    }
}

/// Future that resolves to a guard of a mutex behind an `Arc`.
#[verifier::reject_recursive_types(T)]
pub struct AtomicMutexFuture<T> {
    pub(crate) guard: Option<Arc<Mutex<T>>>,
}

impl<T> AtomicMutexFuture<T> {
    /// The mutex that the future is to lock, while it is pending.
    pub closed spec fn mutex(&self) -> Option<Arc<Mutex<T>>> {
        self.guard
    }

    /// A pending future for `inner`.
    pub(crate) fn new(inner: Arc<Mutex<T>>) -> (future: Self)
        ensures
            !future.is_terminated(),
            future.mutex() == Some(inner),
    {
        AtomicMutexFuture { guard: Some(inner) }
    }

    /// Whether the future has resolved.
    #[verifier::when_used_as_spec(spec_is_terminated)]
    pub fn is_terminated(&self) -> (done: bool)
        ensures
            done == self.is_terminated(),
    {
        self.guard.is_none()
    }

    /// Whether the future has resolved.
    pub closed spec fn spec_is_terminated(&self) -> bool {
        self.guard is None
    }

    /// What a poll reports for what it took out of the mutex. With a value
    /// the future resolves to the guard around it, and is terminated; without
    /// one it stays as it is.
    pub(crate) fn resolve(&mut self, taken: Option<T>) -> (r: Poll<AtomicMutexGuard<T>>)
        requires
            !old(self).is_terminated(),
        ensures
            ready(taken) <==> r is Ready,
            r matches Poll::Ready(g) ==> {
                &&& g@ == taken->0
                &&& g.is_active()
                &&& Some(g.mutex()) == old(self).mutex()
                &&& final(self).is_terminated()
            },
            r is Pending ==> *final(self) == *old(self),
    {
        match taken {
            Some(value) => {
                let inner = self.guard.take().unwrap();
                Poll::Ready(AtomicMutexGuard::new(inner, value))
            },
            None => Poll::Pending,
        }
    }

    /// Takes the lock if it is free, and resolves to its guard; else queues
    /// `waker` and stays pending. A future resolves once: a resolved one must
    /// not be polled again.
    ///
    /// The poll is one attempt on the lock; [`settle`] says what is taken for
    /// each outcome of it, and [`Self::resolve`] what is reported for what was
    /// taken. The waker is queued exactly when nothing was taken.
    pub fn poll(&mut self, waker: &core::task::Waker) -> (r: Poll<AtomicMutexGuard<T>>)
        requires
            !old(self).is_terminated(),
        ensures
            match r {
                Poll::Ready(g) => {
                    &&& final(self).is_terminated()
                    &&& g.is_active()
                    &&& Some(g.mutex()) == old(self).mutex()
                },
                Poll::Pending => *final(self) == *old(self),
            },
    {
        let inner = self.guard.as_ref().unwrap();
        let won = inner.inner.try_lock();
        let mut access = enter(&inner.data);
        let (taken, back) = settle(won, contents(&mut access));
        leave(access);
        if back {
            let _ = inner.inner.unlock();
        }
        if taken.is_none() {
            inner.inner.queue.push(Waker::from(duplicate(waker)));
        }
        self.resolve(taken)
    }
}

} // verus!
