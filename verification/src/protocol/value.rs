//! The mutex with its value: where the value is, and what a run of
//! acquisitions and releases makes of it.
//!
//! An acquisition takes effect at its exchange on the flag and a release at its
//! swap. The value is moved after the one and before the other, by the party
//! that holds the lock and by nobody else, so each is one [`Turn`] here.
//!
//! The model is built from the functions that the library decides with:
//! [`taken`], [`kept`] and [`goes_back`] are what [`settle`](crate::regular::settle)
//! computes for an attempt, `Some(value)` is what
//! [`restore`](crate::regular::restore) leaves, and [`ready`] is what a poll
//! reports.
use vstd::prelude::*;
use crate::guards::ready;
use crate::protocol::LockState;
use crate::queue::rest;
use crate::regular::goes_back;
use crate::regular::kept;
use crate::regular::taken;
use crate::waker::Waker;

verus! {

/// A mutex with its value, at one instant.
pub struct MutexState<T> {
    /// The lock.
    pub lock: LockState,
    /// The value, while it lies in the mutex.
    pub stored: Option<T>,
    /// The value, while a guard holds it.
    pub held: Option<T>,
}

/// One operation on a mutex with a value.
pub enum Turn {
    /// An attempt to acquire: `try_lock`, one poll, or one round of a blocking
    /// acquisition.
    Acquire,
    /// The release of the guard, after its holder has updated the value.
    Release,
}

impl<T> MutexState<T> {
    /// A new mutex around `value`.
    pub open spec fn new(value: T) -> Self {
        MutexState { lock: LockState::unlocked(), stored: Some(value), held: None }
    }

    /// A mutex made of `lock`, in the state it is in, and `value`.
    pub open spec fn from_raw_parts(lock: LockState, value: T) -> Self {
        MutexState { lock, stored: Some(value), held: None }
    }

    /// The parts that taking the mutex apart yields.
    pub open spec fn into_raw_parts(self) -> (LockState, Option<T>) {
        (self.lock, self.stored)
    }

    /// What an attempt to acquire hands to its caller: the stored value if the
    /// attempt wins the lock, nothing if it loses.
    pub open spec fn got(self) -> Option<T> {
        taken(self.lock.grants(), self.stored)
    }

    /// The state after an attempt to acquire: `try_lock`, or the attempt of a
    /// poll or of a round of a blocking acquisition. A winner takes the value
    /// with the lock; a lock that was won without a value goes back at once.
    /// Nobody but the party that has just taken the lock moves the value, so
    /// the whole attempt takes effect at its exchange.
    pub open spec fn acquire(self) -> Self {
        let won = self.lock.grants();
        MutexState {
            lock: if goes_back(won, self.stored) {
                self.lock.try_lock().unlock().wake()
            } else {
                self.lock.try_lock()
            },
            stored: kept(won, self.stored),
            held: if self.got() is Some {
                self.got()
            } else {
                self.held
            },
        }
    }

    /// The state after a future has been made for the mutex: as before, since
    /// making one takes and releases nothing.
    pub open spec fn lock(self) -> Self {
        self
    }

    /// The state after one poll of a future with `waiter`: an attempt to
    /// acquire, and the waiter queued if nothing was taken.
    pub open spec fn poll(self, waiter: Waker) -> Self {
        let after = self.acquire();
        if ready(self.got()) {
            after
        } else {
            MutexState { lock: after.lock.push(waiter), stored: after.stored, held: after.held }
        }
    }

    /// The state after the guard has been released with `value` in it: the
    /// value is back, the lock is free, and the oldest waiter has been
    /// notified. Without an active guard there is nothing to release.
    pub open spec fn release(self, value: T) -> Self {
        if self.held is Some {
            MutexState { lock: self.lock.unlock().wake(), stored: Some(value), held: None }
        } else {
            self
        }
    }

    /// The state after `turn`, where every holder applies `update` to the
    /// value before it releases.
    pub open spec fn turn(self, update: spec_fn(T) -> T, turn: Turn) -> Self {
        match turn {
            Turn::Acquire => self.acquire(),
            Turn::Release => match self.held {
                Some(value) => self.release(update(value)),
                None => self,
            },
        }
    }

    /// The value is in exactly one place, and while a guard has it the lock is
    /// owned.
    pub open spec fn sound(self) -> bool {
        &&& self.held is Some ==> self.lock.owned
        &&& self.stored is Some <==> self.held is None
    }

    /// The value is in exactly one place: in the mutex while the lock is free,
    /// in the one guard while it is owned.
    pub open spec fn whole(self) -> bool {
        &&& self.lock.owned <==> self.held is Some
        &&& self.stored is Some <==> self.held is None
    }

    /// What taking the mutex apart yields: the value that lies in it.
    pub open spec fn into_inner(self) -> Option<T> {
        self.stored
    }

    /// The value, wherever it is.
    pub open spec fn value(self) -> Option<T> {
        if self.held is Some {
            self.held
        } else {
            self.stored
        }
    }
}

/// The state that `trace` leads to from `start`.
pub open spec fn play<T>(start: MutexState<T>, update: spec_fn(T) -> T, trace: Seq<Turn>) -> MutexState<T>
    decreases trace.len(),
{
    if trace.len() == 0 {
        start
    } else {
        play(start, update, trace.drop_last()).turn(update, trace.last())
    }
}

/// How many turns of `trace` acquired the mutex.
pub open spec fn acquisitions<T>(start: MutexState<T>, update: spec_fn(T) -> T, trace: Seq<Turn>) -> nat
    decreases trace.len(),
{
    if trace.len() == 0 {
        0
    } else {
        let before = play(start, update, trace.drop_last());
        let now: nat = if trace.last() is Acquire && before.got() is Some {
            1
        } else {
            0
        };
        acquisitions(start, update, trace.drop_last()) + now
    }
}

/// How many turns of `trace` released a guard.
pub open spec fn releases<T>(start: MutexState<T>, update: spec_fn(T) -> T, trace: Seq<Turn>) -> nat
    decreases trace.len(),
{
    if trace.len() == 0 {
        0
    } else {
        let before = play(start, update, trace.drop_last());
        let now: nat = if trace.last() is Release && before.held is Some {
            1
        } else {
            0
        };
        releases(start, update, trace.drop_last()) + now
    }
}

/// `update`, applied `times` times to `value`.
pub open spec fn repeated<T>(update: spec_fn(T) -> T, times: nat, value: T) -> T
    decreases times,
{
    if times == 0 {
        value
    } else {
        update(repeated(update, (times - 1) as nat, value))
    }
}

/// An attempt to acquire yields the value exactly when the lock is free, and
/// then it is the protected value, which leaves the mutex with the lock. While
/// a guard is out every attempt fails, and a failed attempt changes nothing:
/// not the lock, not the queue, not the value. Making a future is no attempt.
pub proof fn law_acquire_iff_free<T>(state: MutexState<T>)
    requires
        state.sound(),
    ensures
        state.got() is Some <==> !state.lock.owned,
        state.held is Some ==> state.got() is None,
        state.held is Some ==> state.lock().got() is None,
        state.got() is Some ==> {
            &&& state.got() == state.stored
            &&& state.acquire().held == state.stored
            &&& state.acquire().stored is None
            &&& state.acquire().lock == state.lock.try_lock()
        },
        state.got() is None ==> state.acquire() == state,
        state.acquire().lock.owned,
        state.acquire().sound(),
        state.acquire().got() is None,
{
    if state.lock.owned {
        assert(state.lock.try_lock() == state.lock);
    }
}

/// A poll resolves exactly when the lock is free, to a guard around the
/// protected value, and queues nothing. Otherwise it reports that it waits,
/// and its waker is queued behind those that wait already; nothing else
/// changes.
pub proof fn law_poll<T>(state: MutexState<T>, waiter: Waker)
    requires
        state.sound(),
    ensures
        ready(state.got()) <==> !state.lock.owned,
        ready(state.got()) ==> {
            &&& state.poll(waiter) == state.acquire()
            &&& state.poll(waiter).held == state.stored
            &&& state.poll(waiter).lock.waiters == state.lock.waiters
        },
        !ready(state.got()) ==> {
            &&& state.poll(waiter).lock == state.lock.push(waiter)
            &&& state.poll(waiter).stored == state.stored
            &&& state.poll(waiter).held == state.held
        },
{
    law_acquire_iff_free(state);
}

/// A mutex made from parts keeps the lock as it was given. Made from a lock
/// that is owned it refuses every attempt until that lock is unlocked; made
/// from a free one it yields the value to the first attempt. Taken apart again
/// it gives back the lock and the value.
pub proof fn law_raw_parts<T>(lock: LockState, value: T)
    ensures
        MutexState::from_raw_parts(lock, value).sound(),
        MutexState::from_raw_parts(lock, value).into_raw_parts() == (lock, Some(value)),
        MutexState::from_raw_parts(lock, value).into_inner() == Some(value),
        lock.owned ==> MutexState::from_raw_parts(lock, value).got() is None,
        lock.owned ==> MutexState::from_raw_parts(lock, value).acquire()
            == MutexState::from_raw_parts(lock, value),
        !lock.owned ==> MutexState::from_raw_parts(lock, value).got() == Some(value),
        MutexState::from_raw_parts(lock.unlock(), value).got() == Some(value),
        MutexState::new(value) == MutexState::from_raw_parts(LockState::unlocked(), value),
{
    law_acquire_iff_free(MutexState::from_raw_parts(lock, value));
}

/// What is written through a guard is what the mutex holds once the guard is
/// released: the next attempt takes it out, and taking the mutex apart yields
/// it.
pub proof fn law_written_value_returns<T>(state: MutexState<T>, written: T)
    requires
        state.sound(),
        state.held is Some,
    ensures
        state.release(written).sound(),
        state.release(written).got() == Some(written),
        state.release(written).into_inner() == Some(written),
        state.release(written).into_raw_parts().1 == Some(written),
{
}

/// What one holder puts back is what the next one takes out: after a release
/// with `value` the mutex is free, and the next attempt acquires it and holds
/// `value`.
pub proof fn law_value_handed_on<T>(state: MutexState<T>, value: T)
    requires
        state.sound(),
        state.held is Some,
    ensures
        state.release(value).whole(),
        state.release(value).stored == Some(value),
        state.release(value).got() == Some(value),
        state.release(value).acquire().held == Some(value),
        state.release(value).acquire().acquire() == state.release(value).acquire(),
{
    law_acquire_iff_free(state.release(value));
    law_acquire_iff_free(state.release(value).acquire());
}

/// A guard is released once, however often and by whichever way the release
/// is asked for. The first release frees the lock, puts the value back and
/// notifies the oldest waiter; the guard is spent by then, so a second one
/// changes nothing and notifies nobody.
pub proof fn law_release_acts_once<T>(state: MutexState<T>, value: T, later: T)
    requires
        state.sound(),
        state.held is Some,
    ensures
        !state.release(value).lock.owned,
        state.release(value).lock == state.lock.unlock().wake(),
        state.release(value).lock.waiters == rest(state.lock.waiters),
        state.release(value).held is None,
        state.release(value).release(later) == state.release(value),
{
}

/// No update is lost and none is made twice. Whatever the order in which any
/// number of parties try to acquire a new mutex, hold it, update the value once
/// and release, the value is in exactly one place at any time, at most one
/// acquisition is outstanding, and the value is the first one with as many
/// updates applied as guards were released. Once all guards are released that
/// is one update for each acquisition.
pub proof fn law_no_lost_update<T>(value: T, update: spec_fn(T) -> T, trace: Seq<Turn>)
    ensures
        play(MutexState::new(value), update, trace).whole(),
        acquisitions(MutexState::new(value), update, trace) == releases(
            MutexState::new(value),
            update,
            trace,
        ) + play(MutexState::new(value), update, trace).lock.outstanding(),
        play(MutexState::new(value), update, trace).value() == Some(
            repeated(update, releases(MutexState::new(value), update, trace), value),
        ),
        !play(MutexState::new(value), update, trace).lock.owned ==> play(
            MutexState::new(value),
            update,
            trace,
        ).stored == Some(
            repeated(update, acquisitions(MutexState::new(value), update, trace), value),
        ),
    decreases trace.len(),
{
    if trace.len() > 0 {
        law_no_lost_update(value, update, trace.drop_last());
    }
}

/// Taking a mutex apart yields its value exactly when no guard is
/// outstanding. While one is, the value is with the guard and the mutex has
/// none to give.
pub proof fn law_decomposition<T>(value: T, update: spec_fn(T) -> T, trace: Seq<Turn>)
    ensures
        play(MutexState::new(value), update, trace).into_inner() is Some <==> play(
            MutexState::new(value),
            update,
            trace,
        ).lock.outstanding() == 0,
        play(MutexState::new(value), update, trace).lock.outstanding() == 0 ==> play(
            MutexState::new(value),
            update,
            trace,
        ).into_inner() == play(MutexState::new(value), update, trace).value(),
        MutexState::new(value).into_inner() == Some(value),
{
    law_no_lost_update(value, update, trace);
}

/// Whether a future that has made the polls of `polls`, each with what it took
/// out of the mutex, has resolved.
pub open spec fn resolved<T>(polls: Seq<Option<T>>) -> bool
    decreases polls.len(),
{
    polls.len() > 0 && (ready(polls.last()) || resolved(polls.drop_last()))
}

/// Whether the polls of `polls` are all allowed: each was made on a future
/// that had not resolved before it.
pub open spec fn allowed<T>(polls: Seq<Option<T>>) -> bool
    decreases polls.len(),
{
    polls.len() == 0 || (allowed(polls.drop_last()) && !resolved(polls.drop_last()))
}

/// How many of the polls of `polls` reported a guard.
pub open spec fn guards_given<T>(polls: Seq<Option<T>>) -> nat
    decreases polls.len(),
{
    if polls.len() == 0 {
        0
    } else {
        let now: nat = if ready(polls.last()) {
            1
        } else {
            0
        };
        guards_given(polls.drop_last()) + now
    }
}

/// A future resolves once. Over any polls that are allowed it gives at most
/// one guard, with the last of them; it has resolved exactly if it has given
/// one; and once it has, no further poll is allowed, whatever it would take.
pub proof fn law_single_resolution<T>(polls: Seq<Option<T>>, next: Option<T>)
    requires
        allowed(polls),
    ensures
        guards_given(polls) <= 1,
        resolved(polls) <==> guards_given(polls) == 1,
        resolved(polls) ==> ready(polls.last()),
        resolved(polls) ==> !allowed(polls.push(next)),
        !resolved(polls) ==> allowed(polls.push(next)),
    decreases polls.len(),
{
    if polls.len() > 0 {
        law_single_resolution(polls.drop_last(), polls.last());
    }
    assert(polls.push(next).drop_last() =~= polls);
}

} // verus!
