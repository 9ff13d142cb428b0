//! Busy-waiting on a flag, with a bound on every wait.
use vstd::prelude::*;
use core::sync::atomic::Ordering;
use crate::Flag;
use crate::FALSE;
use crate::TRUE;

verus! {

/// How many times a short wait looks at its flag before it stops waiting.
/// The waits that use it end after one push or pop of another thread, so the
/// limit is there for the proof of termination, not for the running program.
pub const SPIN_LIMIT: u64 = 0xffff_ffff_ffff_ffff;

/// `core::hint::spin_loop` tells the processor that the caller is busy-waiting.
/// Nothing is claimed of it.
pub assume_specification[ core::hint::spin_loop ]();

/// Whether a compare-exchange from lowered to raised went through, as a
/// function of what the exchange reported.
pub open spec fn raised(outcome: Result<bool, bool>) -> bool {
    outcome is Ok
}

/// Says whether the exchange that reported `outcome` raised the flag.
pub fn acquired(outcome: Result<bool, bool>) -> (won: bool)
    ensures
        won == raised(outcome),
{
    outcome.is_ok()
}

/// One attempt to raise `flag`. `true` means that this call raised it.
pub fn try_raise(flag: &Flag) -> (won: bool) {
    acquired(flag.compare_exchange(FALSE, TRUE, Ordering::AcqRel, Ordering::Acquire))
}

/// Tries to raise `flag` until it succeeds or has tried `spins + 1` times.
/// `false` means that the flag was raised by others at every attempt.
pub fn raise(flag: &Flag, spins: u64) -> (won: bool) {
    let mut left: u64 = spins;
    loop
        decreases left,
    {
        if try_raise(flag) {
            return true;
        }
        if left == 0 {
            return false;
        }
        core::hint::spin_loop();
        left = left - 1;
    }
}

/// Lowers `flag`, and publishes what the caller wrote while it was raised.
pub fn lower(flag: &Flag) {
    flag.store(FALSE, Ordering::Release);
}

/// Looks at `signal` until it is raised or `spins` looks have been made.
/// Returns the looks that are left, which is fewer than it was given.
pub fn await_signal(signal: &Flag, spins: u64) -> (left: u64)
    requires
        spins > 0,
    ensures
        left < spins,
{
    let mut left: u64 = spins;
    while left > 0
        invariant
            left <= spins,
        decreases left,
    {
        left = left - 1;
        if signal.load(Ordering::Acquire) {
            return left;
        }
        core::hint::spin_loop();
    }
    left
}

} // verus!
