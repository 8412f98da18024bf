//! A value initialized on its first access

use core::cell::UnsafeCell;
use vstd::prelude::*;

use crate::once::OnceLock;

verus! {

/// A synchronization primitive that is lazily initialized on its first access
///
/// The initialization function is kept in a cell as an `Option`; it is taken
/// out, exactly once, by the function that initializes the [OnceLock], and
/// dropped normally if it is never called.
#[verifier::reject_recursive_types(T)]
#[verifier::reject_recursive_types(F)]
pub struct LazyLock<T, F = fn() -> T> {
    once: OnceLock<T>,
    init: UnsafeCell<Option<F>>,
}

impl<T, F: FnOnce() -> T> LazyLock<T, F> {
    /// The [OnceLock] that holds the value once it is computed.
    pub closed spec fn value_lock(&self) -> OnceLock<T> {
        self.once
    }

    /// The cell that holds the initialization function until it is used.
    pub closed spec fn init_storage(&self) -> UnsafeCell<Option<F>> {
        self.init
    }

    /// Builds a new [LazyLock] with the given `init` function, not yet
    /// computed
    pub fn new(init: F) -> (r: Self)
        ensures
            r.value_lock().created_uninitialized(),
    {
        Self { once: OnceLock::new(), init: UnsafeCell::new(Some(init)) }
    }

    /// The [OnceLock] that holds the value once it is computed
    pub fn lock(&self) -> (r: &OnceLock<T>)
        ensures
            *r == self.value_lock(),
    {
        &self.once
    }

    /// The cell of the initialization function. It may be taken only from
    /// inside the function that initializes [`Self::lock`].
    pub fn init_cell(&self) -> (r: &UnsafeCell<Option<F>>)
        ensures
            *r == self.init_storage(),
    {
        &self.init
    }
}

} // verus!
