//! One waiting party, and how to notify it.
use vstd::prelude::*;
use core::sync::atomic::Ordering;
use std::sync::Arc;
use crate::Flag;
use crate::TRUE;

verus! {

/// `core::task::Waker`: the handle by which a scheduler is told to poll a task
/// again.
#[verifier::external_type_specification]
#[verifier::external_body]
pub struct ExTaskWaker(core::task::Waker);

/// `core::task::Waker::wake` tells the scheduler to poll the task again. What
/// the scheduler then does is out of this crate's sight.
pub assume_specification[ core::task::Waker::wake ](waker: core::task::Waker);

/// A second handle to the same task, by `Clone::clone` of `core::task::Waker`.
#[verifier::external_body]
pub(crate) fn duplicate(waker: &core::task::Waker) -> (twin: core::task::Waker) {
    waker.clone()
}

/// A party that waits for the lock.
#[derive(Debug)]
pub enum Waker {
    /// A task: it is notified through its scheduler.
    Async(core::task::Waker),
    /// A thread that spins until the flag is raised.
    Sync(Arc<Flag>),
}

impl Waker {
    /// A waiter for the thread that watches `signal`.
    pub fn sync(signal: Arc<Flag>) -> (waiter: Self)
        ensures
            waiter == Waker::Sync(signal),
    {
        Waker::Sync(signal)
    }

    /// Notifies the party, and uses the waiter up: a task is handed to its
    /// scheduler, a thread has its flag raised.
    pub fn wake(self) {
        match self {
            Waker::Async(task) => task.wake(),
            Waker::Sync(signal) => signal.store(TRUE, Ordering::Release),
        }
    }
}

impl From<core::task::Waker> for Waker {
    fn from(x: core::task::Waker) -> (waiter: Self) {
        Waker::Async(x)
    }
}

impl vstd::std_specs::convert::FromSpecImpl<core::task::Waker> for Waker {
    open spec fn obeys_from_spec() -> bool {
        true
    }

    open spec fn from_spec(x: core::task::Waker) -> Self {
        Waker::Async(x)
    }
}

} // verus!
