//! The state of a write-once cell, and why it is written once.
use vstd::prelude::*;
use crate::queue::cell::claim_of;
use crate::queue::cell::Claim;
use crate::queue::cell::INIT;
use crate::queue::cell::UNINIT;
use crate::queue::cell::WORKING;

verus! {

/// What the exchange from [`UNINIT`] to [`WORKING`] reports on a write-once
/// cell in `state`: the state it found, under `Ok` if that was [`UNINIT`].
pub open spec fn cell_exchange(state: u8) -> Result<u8, u8> {
    if state == UNINIT {
        Ok(UNINIT)
    } else {
        Err(state)
    }
}

/// The state of a write-once cell after that exchange.
pub open spec fn cell_claimed(state: u8) -> u8 {
    if state == UNINIT {
        WORKING
    } else {
        state
    }
}

/// A write-once cell is written once. The exchange wins on an untouched cell
/// and on no other, and after any exchange the cell is no longer untouched: so
/// of all callers one writes, and the rest wait for it or read.
pub proof fn law_written_once(state: u8)
    ensures
        claim_of(cell_exchange(state)) == Claim::Won <==> state == UNINIT,
        cell_claimed(state) != UNINIT,
        claim_of(cell_exchange(cell_claimed(state))) != Claim::Won,
        claim_of(cell_exchange(WORKING)) == Claim::Busy,
        claim_of(cell_exchange(INIT)) == Claim::Ready,
{
}

} // verus!
