//! A mutual-exclusion lock that a thread can wait on, a task can await and
//! anyone can poll. It spawns nothing and allocates nothing until two parties
//! want the lock at once.
//!
//! The lock itself is one atomic flag with a queue of waiters beside it
//! ([`movable::MovableMutex`]). [`Mutex`] attaches a value to it: whoever holds
//! the lock holds the value, through a guard, and hands both back together
//! when it releases the guard.
//!
//! Three things follow from holding the value in the guard. Taking a mutex
//! apart gives `None` where a guard was dropped without a release. The value
//! is of a sized type. And every wait has a budget: a blocking call takes the
//! number of spins it may spend and says whether it got the lock.
//!
//! No contract can speak of what another thread has done to a shared flag.
//! Every step that reads one is therefore written twice: as a method that
//! performs the atomic operation, and as a function from the value it observed
//! to the decision taken, which carries the contract. [`protocol`] states what
//! follows for the lock as a whole.
use vstd::prelude::*;

pub mod guards;
pub mod movable;
pub mod protocol;
pub mod queue;
pub mod regular;
pub mod spin;
pub mod storage;
pub mod waker;

pub use regular::Mutex;


verus! {

/// The atomic flag that the lock and its helpers are built on.
pub type Flag = core::sync::atomic::AtomicBool;

/// A raised flag.
pub const TRUE: bool = true;

/// A lowered flag.
pub const FALSE: bool = false;

/// What one poll of an acquisition reports.
#[derive(Debug)]
pub enum Poll<T> {
    /// The lock was taken; here is what the caller holds now.
    Ready(T),
    /// The lock was owned; the caller's waker is queued.
    Pending,
}

} // verus!
