//! The cells that hold what several threads share.
//!
//! A value behind a shared reference can only be changed through a cell. The
//! two cells used here come from the standard library, so that a mistake in
//! this crate's own protocol can cost progress but never memory safety.
//! Verus sees nothing inside them: no contract below speaks of their contents,
//! because another thread may change them between any two calls.
use vstd::prelude::*;
use core::sync::atomic::AtomicBool;
use std::sync::Arc;

verus! {

/// `std::sync::Mutex`, used as a cell. The queue's storage and the slot of an
/// exchange cell are entered by the party that the cell's own flag has let
/// through. The place of a mutex's value is entered for a moment by every
/// attempt on the lock, which then takes the value or leaves it alone.
#[verifier::external_type_specification]
#[verifier::external_body]
#[verifier::reject_recursive_types(T)]
pub struct ExCell<T: ?Sized>(std::sync::Mutex<T>);

/// `std::sync::MutexGuard`: the right to read and write what a cell holds.
#[verifier::external_type_specification]
#[verifier::external_body]
#[verifier::reject_recursive_types(T)]
pub struct ExAccess<'a, T: ?Sized + 'a>(std::sync::MutexGuard<'a, T>);

/// `std::sync::OnceLock`: a cell that is written at most once and then only
/// read.
#[verifier::external_type_specification]
#[verifier::external_body]
#[verifier::reject_recursive_types(T)]
pub struct ExOnce<T>(std::sync::OnceLock<T>);

/// `std::sync::Mutex::new` makes a cell that holds `t`. The contents have no
/// name in this crate, so nothing is stated.
pub assume_specification<T>[ std::sync::Mutex::<T>::new ](t: T) -> std::sync::Mutex<T>;

/// `std::sync::OnceLock::new` makes an empty cell.
pub assume_specification<T>[ std::sync::OnceLock::<T>::new ]() -> std::sync::OnceLock<T>;

/// `std::sync::OnceLock::get` returns what the cell holds, if it was written.
pub assume_specification<T>[ std::sync::OnceLock::<T>::get ](cell: &std::sync::OnceLock<T>) -> Option<&T>;

/// `std::sync::OnceLock::set` writes `value` if the cell is empty and hands it
/// back if not. All that is claimed is that a value handed back is the one
/// given.
pub assume_specification<T>[ std::sync::OnceLock::<T>::set ](
    cell: &std::sync::OnceLock<T>,
    value: T,
) -> (r: Result<(), T>)
    ensures
        r matches Err(back) ==> back == value,
;

/// `std::sync::OnceLock::get_or_init` returns what the cell holds, after
/// writing the result of `f` if the cell was empty. It calls `f` at most once.
pub assume_specification<T, F>[ std::sync::OnceLock::<T>::get_or_init ](
    cell: &std::sync::OnceLock<T>,
    f: F,
) -> &T where F: FnOnce() -> T
    requires
        f.requires(()),
;

/// Enters a cell with `std::sync::Mutex::lock`. A cell whose last visitor
/// panicked is entered all the same (`PoisonError::into_inner`). Every caller
/// leaves the cell again before it calls anything that could come back to it,
/// so no thread asks for a cell that it has entered.
#[verifier::external_body]
pub(crate) fn enter<'a, T>(cell: &'a std::sync::Mutex<T>) -> (access: std::sync::MutexGuard<'a, T>) {
    match cell.lock() {
        Ok(access) => access,
        Err(poisoned) => poisoned.into_inner(),
    }
}

/// The contents of an entered cell, through `DerefMut::deref_mut` of
/// `std::sync::MutexGuard`. What they are is not stated: the reference leads to
/// whatever the last visitor left.
#[verifier::external_body]
pub(crate) fn contents<'a, 'b, T>(access: &'a mut std::sync::MutexGuard<'b, T>) -> (inside: &'a mut T) {
    &mut **access
}

/// Leaves a cell, by dropping the access to it (`core::mem::drop`).
#[verifier::external_body]
pub(crate) fn leave<'a, T>(access: std::sync::MutexGuard<'a, T>) {
    drop(access)
}

/// Takes a cell apart with `std::sync::Mutex::into_inner`, whether or not its
/// last visitor panicked.
#[verifier::external_body]
pub(crate) fn unwrap_cell<T>(cell: std::sync::Mutex<T>) -> (inside: T) {
    match cell.into_inner() {
        Ok(inside) => inside,
        Err(poisoned) => poisoned.into_inner(),
    }
}

/// A second handle to the same flag, by `Arc::clone`.
#[verifier::external_body]
pub(crate) fn share(flag: &Arc<AtomicBool>) -> (twin: Arc<AtomicBool>)
    ensures
        twin == *flag,
{
    flag.clone()
}

} // verus!
