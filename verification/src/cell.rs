//! The interior-mutable storage that the data-carrying primitives hold.
//!
//! `UnsafeCell` is the one place where a value may change behind a shared
//! reference. The safe operations on it, those that need the cell by value or
//! by unique reference, are declared here so that the primitives can build and
//! dismantle their storage. Reading or writing the value behind a shared
//! reference needs a raw pointer and is left to the code that holds the
//! corresponding guard.

use core::cell::UnsafeCell;
use vstd::prelude::*;

verus! {

/// `core::cell::UnsafeCell`, carried opaquely: nothing is stated of its
/// contents, which other threads may change through a guard.
#[verifier::external_type_specification]
#[verifier::external_body]
#[verifier::reject_recursive_types(T)]
pub struct ExUnsafeCell<T: ?Sized>(UnsafeCell<T>);

/// `UnsafeCell::new` wraps a value; the contract states nothing of the
/// contents, which are not observable here.
pub assume_specification<T>[ UnsafeCell::<T>::new ](value: T) -> UnsafeCell<T>;

/// `UnsafeCell::into_inner` unwraps the cell; the contract states nothing of
/// the value returned, since the contents are not observable here.
pub assume_specification<T>[ UnsafeCell::<T>::into_inner ](cell: UnsafeCell<T>) -> T;

/// `UnsafeCell::get_mut` borrows the contents uniquely; the contract states
/// nothing of them.
pub assume_specification<T: ?Sized>[ UnsafeCell::<T>::get_mut ](cell: &mut UnsafeCell<T>) -> &mut T;

} // verus!
