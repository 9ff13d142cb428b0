//! Two small cells: one that is written once, one that holds at most one value
//! and lets it be taken out and put back.
use vstd::prelude::*;
use core::sync::atomic::AtomicU8;
use core::sync::atomic::Ordering;
use crate::spin::lower;
use crate::spin::try_raise;
use crate::spin::SPIN_LIMIT;
use crate::storage::contents;
use crate::storage::enter;
use crate::storage::leave;
use crate::Flag;
use crate::FALSE;

verus! {

/// The state of a cell that nobody has begun to write.
pub const UNINIT: u8 = 0;

/// The state of a cell that one caller is writing.
pub const WORKING: u8 = 1;

/// The state of a cell that has been written.
pub const INIT: u8 = 2;

/// How far the writing of a cell has come, as its state says.
#[derive(Clone, Copy, Debug, PartialEq, Eq, Structural)]
pub enum Phase {
    /// Nobody has begun to write.
    Empty,
    /// One caller is writing.
    Writing,
    /// The value is there.
    Written,
}

/// The phase that `state` stands for. Every state but the first two stands for
/// a written cell.
pub open spec fn phase_of(state: u8) -> Phase {
    if state == UNINIT {
        Phase::Empty
    } else if state == WORKING {
        Phase::Writing
    } else {
        Phase::Written
    }
}

/// Reads a state.
pub fn phase(state: u8) -> (p: Phase)
    ensures
        p == phase_of(state),
{
    if state == UNINIT {
        Phase::Empty
    } else if state == WORKING {
        Phase::Writing
    } else {
        Phase::Written
    }
}

/// What a caller is to do after its attempt to move a cell from [`UNINIT`] to
/// [`WORKING`].
#[derive(Clone, Copy, Debug, PartialEq, Eq, Structural)]
pub enum Claim {
    /// The attempt went through: this caller writes the cell.
    Won,
    /// Another caller is writing: wait for it.
    Busy,
    /// The cell has been written: read it.
    Ready,
}

/// The claim that follows from what the exchange reported: it went through, or
/// it found the state that comes with `Err`.
pub open spec fn claim_of(outcome: Result<u8, u8>) -> Claim {
    match outcome {
        Ok(_) => Claim::Won,
        Err(found) => if phase_of(found) == Phase::Writing {
            Claim::Busy
        } else {
            Claim::Ready
        },
    }
}

/// Decides between writing, waiting and reading.
pub fn claim(outcome: Result<u8, u8>) -> (c: Claim)
    ensures
        c == claim_of(outcome),
{
    match outcome {
        Ok(_) => Claim::Won,
        Err(found) => match phase(found) {
            Phase::Writing => Claim::Busy,
            _ => Claim::Ready,
        },
    }
}

/// A cell that is empty at first and written at most once. The first caller
/// that asks for the value with a way to make it writes it; every caller gets
/// a reference to the one value that was written.
#[verifier::reject_recursive_types(T)]
#[derive(Debug)]
pub struct OnceCell<T> {
    init: AtomicU8,
    value: std::sync::OnceLock<T>,
}

impl<T> OnceCell<T> {
    /// An empty cell.
    pub fn new() -> Self {
        OnceCell { init: AtomicU8::new(UNINIT), value: std::sync::OnceLock::new() }
    }

    /// A cell that holds `v` from the start.
    pub fn new_init(v: T) -> Self {
        let value = std::sync::OnceLock::new();
        let _ = value.set(v);
        OnceCell { init: AtomicU8::new(INIT), value }
    }

    /// Waits while another caller writes the cell, for at most [`SPIN_LIMIT`]
    /// looks at its state. `true` means that the writer was seen to finish.
    fn wait_written(&self) -> (done: bool) {
        let mut left: u64 = SPIN_LIMIT;
        while left > 0
            decreases left,
        {
            match phase(self.init.load(Ordering::Acquire)) {
                Phase::Writing => {},
                _ => {
                    return true;
                },
            }
            core::hint::spin_loop();
            left = left - 1;
        }
        false
    }

    /// The value of the cell, made by `f` if this is the first call to ask.
    ///
    /// The caller that wins the state writes; one that finds a writer at work
    /// waits for it; all of them then read. `f` runs at most once, and not at
    /// all if the cell was written before.
    pub fn get_or_set<F: FnOnce() -> T>(&self, f: F) -> (value: &T)
        requires
            f.requires(()),
    {
        let outcome = self.init.compare_exchange(
            UNINIT,
            WORKING,
            Ordering::AcqRel,
            Ordering::Acquire,
        );
        match claim(outcome) {
            Claim::Won => {
                let value = self.value.get_or_init(f);
                self.init.store(INIT, Ordering::Release);
                value
            },
            Claim::Busy => {
                let _ = self.wait_written();
                self.value.get_or_init(f)
            },
            Claim::Ready => self.value.get_or_init(f),
        }
    }

    /// The value of the cell, which is `T::default()` if this is the first call
    /// to ask.
    pub fn get_or_default(&self) -> (value: &T) where T: Default {
        self.get_or_set(T::default)
    }

    /// Writes `v` if the cell is empty. If it is not, the result is `Err` with
    /// the value that the cell holds, and `v` is dropped.
    pub fn try_set(&self, v: T) -> (r: Result<(), &T>) {
        let outcome = self.init.compare_exchange(
            UNINIT,
            WORKING,
            Ordering::AcqRel,
            Ordering::Acquire,
        );
        match claim(outcome) {
            Claim::Won => {
                let written = self.value.set(v);
                self.init.store(INIT, Ordering::Release);
                match written {
                    Ok(()) => Ok(()),
                    Err(back) => Err(self.value.get_or_init(move || back)),
                }
            },
            Claim::Busy => {
                let _ = self.wait_written();
                Err(self.value.get_or_init(move || v))
            },
            Claim::Ready => Err(self.value.get_or_init(move || v)),
        }
    }

    /// The value of the cell, or `None` if nobody has begun to write it.
    pub fn try_get(&self) -> (value: Option<&T>) {
        match phase(self.init.load(Ordering::Acquire)) {
            Phase::Empty => None,
            Phase::Writing => {
                let _ = self.wait_written();
                self.value.get()
            },
            Phase::Written => self.value.get(),
        }
    }
}

/// What [`write_if_empty`] leaves in the slot.
pub open spec fn slot_after<T>(slot: Option<T>, v: T) -> Option<T> {
    match slot {
        Some(kept) => Some(kept),
        None => Some(v),
    }
}

/// Puts `v` into `slot` if it is empty, and hands `v` back if it is not. A full
/// slot is left as it was.
pub fn write_if_empty<T>(slot: &mut Option<T>, v: T) -> (r: Result<(), T>)
    ensures
        *final(slot) == slot_after(*old(slot), v),
        *old(slot) is None ==> r is Ok,
        *old(slot) is Some ==> r == Err::<(), T>(v),
{
    if slot.is_none() {
        *slot = Some(v);
        Ok(())
    } else {
        Err(v)
    }
}

/// A slot for one value, which any holder of a shared reference may take out
/// or fill.
#[verifier::reject_recursive_types(T)]
#[derive(Debug)]
pub struct AtomicCell<T> {
    locked: Flag,
    value: std::sync::Mutex<Option<T>>,
}

impl<T> AtomicCell<T> {
    /// A cell that holds `v`.
    pub fn new(v: T) -> Self {
        AtomicCell { locked: Flag::new(FALSE), value: std::sync::Mutex::new(Some(v)) }
    }

    /// Takes the value out, and leaves the cell empty. `None` means that it was
    /// empty already.
    pub fn try_take(&self) -> (taken: Option<T>) {
        let held = self.wait_lock();
        let mut access = enter(&self.value);
        let taken = contents(&mut access).take();
        leave(access);
        self.unlock(held);
        taken
    }

    /// Fills the cell with `v` if it is empty. If it holds a value, that value
    /// stays and `v` comes back in `Err`.
    pub fn try_write(&self, v: T) -> (r: Result<(), T>)
        ensures
            r matches Err(back) ==> back == v,
    {
        let held = self.wait_lock();
        let mut access = enter(&self.value);
        let r = write_if_empty(contents(&mut access), v);
        leave(access);
        self.unlock(held);
        r
    }

    /// One attempt to raise the cell's flag.
    fn try_lock(&self) -> (won: bool) {
        try_raise(&self.locked)
    }

    /// Spins for the cell's flag. `false` means that the budget ran out first;
    /// the caller then goes on without the flag, and the storage's own lock is
    /// what keeps it alone with the value.
    fn wait_lock(&self) -> (held: bool) {
        let mut left: u64 = SPIN_LIMIT;
        while !self.try_lock()
            decreases left,
        {
            if left == 0 {
                return false;
            }
            core::hint::spin_loop();
            left = left - 1;
        }
        true
    }

    /// Lowers the cell's flag, if this caller raised it.
    fn unlock(&self, held: bool) {
        if held {
            lower(&self.locked);
        }
    }
}

} // verus!
