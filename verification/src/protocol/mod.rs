//! The lock as a state machine, and what holds of every run of it.
//!
//! The executable lock keeps its state in atomics that any thread may change
//! between two calls, so no contract of a method can speak of that state. What
//! a method does with the value it observed is stated on the function that
//! takes the value ([`raised`], [`was_owned`], [`round_of`], [`progress`],
//! [`front`], [`rest`]). This module puts those functions together. [`LockState`] is the lock at one
//! instant. A [`Step`] is one operation on the flag or on the queue, each of
//! which takes effect at one instant; a call of the library is one or two of
//! them, and other parties may step in between. A run is a sequence of steps by
//! whichever parties, in the order in which they took effect.
use vstd::prelude::*;
use crate::movable::progress;
use crate::movable::round_of;
use crate::movable::was_owned;
use crate::movable::Round;
use crate::queue::front;
use crate::queue::rest;
use crate::spin::raised;
use crate::waker::Waker;
use crate::FALSE;
use crate::TRUE;

pub mod once;
pub mod value;

verus! {

/// The lock at one instant: whether it is owned, and who waits, oldest first.
pub struct LockState {
    pub owned: bool,
    pub waiters: Seq<Waker>,
}

/// One operation on the lock.
pub enum Step {
    /// The compare-exchange of a `try_lock`. A poll and a round of a blocking
    /// acquisition begin with one.
    TryLock,
    /// A push on the queue, by a poll or a round whose `try_lock` failed.
    Push(Waker),
    /// The swap of an `unlock`.
    Unlock,
    /// A wake on the queue, which an `unlock` goes on to if its swap found the
    /// lock owned.
    Wake,
}

impl LockState {
    /// A new lock.
    pub open spec fn unlocked() -> Self {
        LockState { owned: false, waiters: Seq::empty() }
    }

    /// A new lock that starts locked.
    pub open spec fn locked() -> Self {
        LockState { owned: true, waiters: Seq::empty() }
    }

    /// What a compare-exchange from lowered to raised reports on this state:
    /// the value it found, under `Ok` if that was the lowered one.
    pub open spec fn exchange(self) -> Result<bool, bool> {
        if self.owned {
            Err(TRUE)
        } else {
            Ok(FALSE)
        }
    }

    /// Whether a `try_lock` on this state takes the lock.
    pub open spec fn grants(self) -> bool {
        raised(self.exchange())
    }

    /// The state after a `try_lock`: owned, by the caller or as before.
    pub open spec fn try_lock(self) -> Self {
        LockState { owned: true, waiters: self.waiters }
    }

    /// The state after `waiter` has been queued.
    pub open spec fn push(self, waiter: Waker) -> Self {
        LockState { owned: self.owned, waiters: self.waiters.push(waiter) }
    }

    /// Whether an `unlock` on this state releases the lock, and so goes on to
    /// wake: whether its swap finds the flag raised.
    pub open spec fn releases(self) -> bool {
        was_owned(self.owned)
    }

    /// The state after the swap of an `unlock`: free.
    pub open spec fn unlock(self) -> Self {
        LockState { owned: false, waiters: self.waiters }
    }

    /// Whom a wake on this state notifies: the oldest waiter.
    pub open spec fn next(self) -> Option<Waker> {
        front(self.waiters)
    }

    /// The state after a wake: the oldest waiter has left the queue.
    pub open spec fn wake(self) -> Self {
        LockState { owned: self.owned, waiters: rest(self.waiters) }
    }

    /// The state after one poll of a future of the lock with `waiter`: the
    /// attempt, and the waiter queued if the attempt failed.
    pub open spec fn poll(self, waiter: Waker) -> Self {
        if self.grants() {
            self.try_lock()
        } else {
            self.try_lock().push(waiter)
        }
    }

    /// The state after one round of a blocking acquisition with `left` spins
    /// to go, where `flag` is the fresh flag of the round: the attempt, and
    /// the flag queued if the round goes on to wait.
    pub open spec fn round(self, left: u64, flag: Waker) -> Self {
        match round_of(self.grants(), left) {
            Round::Taken => self.try_lock(),
            Round::GaveUp => self.try_lock(),
            Round::Wait => self.try_lock().push(flag),
        }
    }

    /// The state after `step`.
    pub open spec fn step(self, step: Step) -> Self {
        match step {
            Step::TryLock => self.try_lock(),
            Step::Push(waiter) => self.push(waiter),
            Step::Unlock => self.unlock(),
            Step::Wake => self.wake(),
        }
    }

    /// How many acquisitions are outstanding: one if the lock is owned.
    pub open spec fn outstanding(self) -> nat {
        if self.owned {
            1
        } else {
            0
        }
    }
}

/// The state that `trace` leads to from `start`.
pub open spec fn run(start: LockState, trace: Seq<Step>) -> LockState
    decreases trace.len(),
{
    if trace.len() == 0 {
        start
    } else {
        run(start, trace.drop_last()).step(trace.last())
    }
}

/// How many steps of `trace` took the lock.
pub open spec fn granted(start: LockState, trace: Seq<Step>) -> nat
    decreases trace.len(),
{
    if trace.len() == 0 {
        0
    } else {
        let before = run(start, trace.drop_last());
        let now: nat = if trace.last() is TryLock && before.grants() {
            1
        } else {
            0
        };
        granted(start, trace.drop_last()) + now
    }
}

/// How many steps of `trace` released the lock.
pub open spec fn released(start: LockState, trace: Seq<Step>) -> nat
    decreases trace.len(),
{
    if trace.len() == 0 {
        0
    } else {
        let before = run(start, trace.drop_last());
        let now: nat = if trace.last() is Unlock && before.releases() {
            1
        } else {
            0
        };
        released(start, trace.drop_last()) + now
    }
}

/// How many steps of `trace` were wakes.
pub open spec fn wakes(trace: Seq<Step>) -> nat
    decreases trace.len(),
{
    if trace.len() == 0 {
        0
    } else {
        let now: nat = if trace.last() is Wake {
            1
        } else {
            0
        };
        wakes(trace.drop_last()) + now
    }
}

/// Whether every wake of `trace` is the one wake of a release before it, as it
/// is when all wakes come from `unlock`.
pub open spec fn orderly(start: LockState, trace: Seq<Step>) -> bool
    decreases trace.len(),
{
    trace.len() == 0 || {
        &&& orderly(start, trace.drop_last())
        &&& trace.last() is Wake ==> wakes(trace.drop_last()) < released(
            start,
            trace.drop_last(),
        )
    }
}

/// The waiters that the steps of `trace` queued, in the order in which they
/// queued.
pub open spec fn pushed(trace: Seq<Step>) -> Seq<Waker>
    decreases trace.len(),
{
    if trace.len() == 0 {
        Seq::empty()
    } else {
        match trace.last() {
            Step::Push(waiter) => pushed(trace.drop_last()).push(waiter),
            _ => pushed(trace.drop_last()),
        }
    }
}

/// The waiters that the steps of `trace` notified, in the order in which they
/// were notified.
pub open spec fn notifications(start: LockState, trace: Seq<Step>) -> Seq<Waker>
    decreases trace.len(),
{
    if trace.len() == 0 {
        Seq::empty()
    } else {
        let before = run(start, trace.drop_last());
        let earlier = notifications(start, trace.drop_last());
        match (trace.last(), before.next()) {
            (Step::Wake, Some(waiter)) => earlier.push(waiter),
            _ => earlier,
        }
    }
}

/// The waiters that `calls` wakes of the queue notify, in the order in which
/// they are notified.
pub open spec fn woken(waiters: Seq<Waker>, calls: nat) -> Seq<Waker>
    decreases calls,
{
    if calls == 0 {
        Seq::empty()
    } else {
        match front(waiters) {
            Some(waiter) => seq![waiter] + woken(rest(waiters), (calls - 1) as nat),
            None => woken(rest(waiters), (calls - 1) as nat),
        }
    }
}

/// The waiters that are still queued after `calls` wakes.
pub open spec fn queued(waiters: Seq<Waker>, calls: nat) -> Seq<Waker>
    decreases calls,
{
    if calls == 0 {
        waiters
    } else {
        queued(rest(waiters), (calls - 1) as nat)
    }
}

/// A `try_lock` takes the lock if and only if nobody owns it: a new lock at
/// once, one that starts locked not before its first `unlock`. Once a
/// `try_lock` has taken the lock, every further one fails, however many parties
/// try, queue up or are woken meanwhile, until an `unlock`; the first
/// `try_lock` after that succeeds again.
pub proof fn law_try_lock_exclusive(state: LockState, meanwhile: Seq<Step>)
    requires
        forall|i: int| 0 <= i < meanwhile.len() ==> !(#[trigger] meanwhile[i] is Unlock),
    ensures
        state.grants() <==> !state.owned,
        LockState::unlocked().grants(),
        !LockState::locked().grants(),
        LockState::locked().unlock().grants(),
        !run(state.try_lock(), meanwhile).grants(),
        granted(state.try_lock(), meanwhile) == 0,
        run(state.try_lock(), meanwhile).unlock().grants(),
    decreases meanwhile.len(),
{
    if meanwhile.len() > 0 {
        let earlier = meanwhile.drop_last();
        assert forall|i: int| 0 <= i < earlier.len() implies !(#[trigger] earlier[i] is Unlock) by {
            assert(earlier[i] == meanwhile[i]);
        }
        law_try_lock_exclusive(state, earlier);
    }
}

/// A poll of a future of the lock reports that the lock is taken exactly when
/// it was free, and then queues nothing; otherwise it reports that it waits,
/// and its waker is queued behind those that wait already.
pub proof fn law_poll_lock(state: LockState, waiter: Waker)
    ensures
        progress(state.grants()) is Ready <==> !state.owned,
        progress(state.grants()) is Pending <==> state.owned,
        !state.owned ==> state.poll(waiter) == state.try_lock(),
        state.owned ==> state.poll(waiter) == state.push(waiter),
        state.poll(waiter).owned,
{
    if state.owned {
        assert(state.try_lock() == state);
    }
}

/// One round of a blocking acquisition. On a free lock it takes the lock and
/// returns at once, with nothing queued. It reports the lock taken only if its
/// own attempt won. Each round that loses with spins left queues exactly one
/// fresh flag, behind those that wait already. It gives up only after a lost
/// attempt with no spins left, and then changes nothing.
pub proof fn law_blocking_round(state: LockState, left: u64, flag: Waker)
    ensures
        round_of(state.grants(), left) == Round::Taken <==> !state.owned,
        round_of(state.grants(), left) == Round::GaveUp <==> state.owned && left == 0,
        round_of(state.grants(), left) == Round::Wait <==> state.owned && left > 0,
        !state.owned ==> state.round(left, flag) == state.try_lock(),
        !state.owned ==> state.round(left, flag).waiters == state.waiters,
        state.owned && left == 0 ==> state.round(left, flag) == state,
        state.owned && left > 0 ==> state.round(left, flag) == state.push(flag),
        state.round(left, flag).owned,
{
    if state.owned {
        assert(state.try_lock() == state);
    }
}

/// In every run, the acquisitions that were granted and not yet released are
/// as many as the lock says.
proof fn lemma_balance(start: LockState, trace: Seq<Step>)
    ensures
        start.outstanding() + granted(start, trace) == released(start, trace) + run(
            start,
            trace,
        ).outstanding(),
    decreases trace.len(),
{
    if trace.len() > 0 {
        lemma_balance(start, trace.drop_last());
    }
}

/// Mutual exclusion. In every run, the acquisitions that were granted and not
/// yet released are as many as the lock says: none or one. Started on a free
/// lock, no run grants a second acquisition while one is outstanding.
pub proof fn law_mutual_exclusion(start: LockState, trace: Seq<Step>)
    ensures
        start.outstanding() + granted(start, trace) == released(start, trace) + run(
            start,
            trace,
        ).outstanding(),
        granted(LockState::unlocked(), trace) <= released(LockState::unlocked(), trace) + 1,
{
    lemma_balance(start, trace);
    lemma_balance(LockState::unlocked(), trace);
}

/// An `unlock` of an owned lock frees it and goes on to one wake, which
/// notifies exactly the oldest waiter and leaves the others queued in their
/// order. An `unlock` of a free lock changes nothing and wakes nobody: so it is
/// with a second `unlock` that follows the first.
pub proof fn law_unlock_wakes_one(state: LockState)
    requires
        state.owned,
    ensures
        state.releases(),
        !state.unlock().owned,
        state.unlock().next() == front(state.waiters),
        state.unlock().wake().waiters == rest(state.waiters),
        !state.unlock().wake().releases(),
        state.unlock().wake().unlock() == state.unlock().wake(),
{
}

/// In an orderly run there are no more wakes than releases.
proof fn lemma_wakes_follow_releases(start: LockState, trace: Seq<Step>)
    requires
        orderly(start, trace),
    ensures
        wakes(trace) <= released(start, trace),
    decreases trace.len(),
{
    if trace.len() > 0 {
        lemma_wakes_follow_releases(start, trace.drop_last());
    }
}

/// Nobody is notified twice and nobody is passed over. In every run, the
/// waiters that were queued at the start or have queued since are, in that
/// order, those that were notified followed by those that still wait. Each
/// wake notifies at most one of them, and where every wake is that of a
/// release, each release has notified at most one.
pub proof fn law_waiters_accounted(start: LockState, trace: Seq<Step>)
    ensures
        start.waiters + pushed(trace) == notifications(start, trace) + run(start, trace).waiters,
        notifications(start, trace).len() <= wakes(trace),
        orderly(start, trace) ==> notifications(start, trace).len() <= released(start, trace),
    decreases trace.len(),
{
    if trace.len() == 0 {
        assert(start.waiters + Seq::<Waker>::empty() =~= Seq::<Waker>::empty() + start.waiters);
    } else {
        let earlier = trace.drop_last();
        law_waiters_accounted(start, earlier);
        let before = run(start, earlier);
        let all_before = start.waiters + pushed(earlier);
        let told_before = notifications(start, earlier);
        assert(all_before == told_before + before.waiters);
        match trace.last() {
            Step::Push(waiter) => {
                assert(start.waiters + pushed(earlier).push(waiter) =~= all_before.push(waiter));
                assert((told_before + before.waiters).push(waiter) =~= told_before
                    + before.waiters.push(waiter));
            },
            Step::Wake => {
                if before.waiters.len() > 0 {
                    assert(told_before.push(before.waiters[0]) + before.waiters.skip(1)
                        =~= told_before + before.waiters);
                }
            },
            _ => {},
        }
        if orderly(start, trace) {
            lemma_wakes_follow_releases(start, trace);
        }
    }
}

/// Every wake notifies at most one waiter, the oldest first. After as many
/// wakes as there were waiters each of them has been notified once, in the
/// order in which they queued, and further wakes notify nobody.
pub proof fn law_one_wake_each(waiters: Seq<Waker>, calls: nat)
    ensures
        woken(waiters, calls + 1).len() <= woken(waiters, calls).len() + 1,
        calls <= waiters.len() ==> woken(waiters, calls) == waiters.take(calls as int),
        calls <= waiters.len() ==> queued(waiters, calls) == waiters.skip(calls as int),
        calls >= waiters.len() ==> woken(waiters, calls) == waiters,
        calls >= waiters.len() ==> queued(waiters, calls).len() == 0,
    decreases calls,
{
    if calls == 0 {
        assert(waiters.take(0) =~= Seq::<Waker>::empty());
        assert(waiters.skip(0) =~= waiters);
        if waiters.len() == 0 {
            assert(waiters =~= Seq::<Waker>::empty());
        }
        assert(woken(rest(waiters), 0) =~= Seq::<Waker>::empty());
    } else {
        let fewer = (calls - 1) as nat;
        law_one_wake_each(rest(waiters), fewer);
        if waiters.len() > 0 {
            assert(waiters =~= seq![waiters[0]] + waiters.skip(1));
            if calls <= waiters.len() {
                assert(waiters.take(calls as int) =~= seq![waiters[0]] + waiters.skip(1).take(
                    fewer as int,
                ));
                assert(waiters.skip(calls as int) =~= waiters.skip(1).skip(fewer as int));
            }
        } else {
            assert(waiters.take(0) =~= waiters);
            assert(woken(waiters, calls) =~= waiters);
        }
    }
}

} // verus!
