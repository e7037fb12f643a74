//! What the library believes of the lock and of the shared pointer of `std`.
//!
//! A [`Mutex`] is opaque to the verifier, and what it guards can change
//! between any two acquisitions. So nothing here is claimed of the cell that
//! a guard gives access to: the code that works on it is verified for every
//! state of the cell.

use crate::cell::Cell;
use std::sync::Arc;
use std::sync::Mutex;
use std::sync::MutexGuard;
use vstd::prelude::*;

verus! {

/// `std::sync::Mutex`, the lock round the cell.
#[verifier::external_type_specification]
#[verifier::external_body]
#[verifier::reject_recursive_types(T)]
pub struct ExMutex<T: ?Sized>(Mutex<T>);

/// `std::sync::MutexGuard`, which holds the lock until it is dropped.
#[verifier::external_type_specification]
#[verifier::external_body]
#[verifier::reject_recursive_types(T)]
pub struct ExMutexGuard<'a, T: ?Sized + 'a>(MutexGuard<'a, T>);

/// `Mutex::new`: a lock round `value`. Nothing is claimed of it.
pub assume_specification<T>[ Mutex::<T>::new ](value: T) -> (mutex: Mutex<T>);

/// `Mutex::lock`: waits for the lock and takes it. For a lock that a panic
/// has poisoned, `lock` hands the guard over inside its error, and
/// `PoisonError::into_inner` takes it out: the guard comes back either way.
/// Nothing is claimed of the guard.
#[verifier::external_body]
pub(crate) fn acquire<'a, T>(mutex: &'a Mutex<Cell<T>>) -> (guard: MutexGuard<'a, Cell<T>>) {
    match mutex.lock() {
        Ok(guard) => guard,
        Err(poisoned) => poisoned.into_inner(),
    }
}

/// `MutexGuard::deref_mut`: the guarded cell, for reading and writing.
/// Nothing is claimed of it.
#[verifier::external_body]
pub(crate) fn cell_mut<'a, 'b, T>(guard: &'b mut MutexGuard<'a, Cell<T>>) -> (cell: &'b mut Cell<T>) {
    &mut **guard
}

/// `MutexGuard::deref`: the guarded cell, for reading. Nothing is claimed of
/// it.
#[verifier::external_body]
pub(crate) fn cell_ref<'a, 'b, T>(guard: &'b MutexGuard<'a, Cell<T>>) -> (cell: &'b Cell<T>) {
    &**guard
}

/// `Arc::clone`: one more pointer to the same allocation, so to the same
/// value.
#[verifier::external_body]
pub(crate) fn share<T>(pointer: &Arc<Mutex<Cell<T>>>) -> (copy: Arc<Mutex<Cell<T>>>)
    ensures
        copy == *pointer,
{
    Arc::clone(pointer)
}

/// `Arc::ptr_eq`: whether the two pointers lead to one allocation. Where they
/// do, they lead to one value. The answer rests on addresses, and nothing is
/// claimed of the answer `false`.
#[verifier::external_body]
pub(crate) fn same_allocation<T>(a: &Arc<Mutex<Cell<T>>>, b: &Arc<Mutex<Cell<T>>>) -> (same: bool)
    ensures
        same ==> *a == *b,
{
    Arc::ptr_eq(a, b)
}

} // verus!
