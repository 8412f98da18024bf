//! A mutex, providing unique synchronized access to a value

use core::cell::UnsafeCell;
use vstd::prelude::*;

use crate::spin::{SpinLock, SpinLockGuard};

verus! {

/// A mutex grants synchronized access to a value
///
/// The value sits in an [`UnsafeCell`]; a [`MutexGuard`] is the proof that
/// the lock is held, and while it lives its holder may reach the value
/// through [`MutexGuard::cell`].
#[verifier::reject_recursive_types(T)]
pub struct Mutex<T> {
    lock: SpinLock,
    data: UnsafeCell<T>,
}

/// A RAII structure for a [mutex](Mutex) lock
///
/// This struct is built by [Mutex::try_lock], and it
/// unlocks the mutex when dropped.
#[must_use]
#[verifier::reject_recursive_types(T)]
pub struct MutexGuard<'a, T> {
    mutex: &'a Mutex<T>,
    _lock: SpinLockGuard<'a>,
}

impl<'a, T> MutexGuard<'a, T> {
    /// The spin guard inside belongs to the mutex's lock.
    #[verifier::type_invariant]
    spec fn holds_own_lock(self) -> bool {
        self._lock.holds(&self.mutex.lock)
    }

    /// The mutex the guard was given out by.
    pub closed spec fn guarded(&self) -> Mutex<T> {
        *self.mutex
    }

    /// The spin guard inside holds the lock of `mutex`.
    pub closed spec fn holds_lock_of(&self, mutex: &Mutex<T>) -> bool {
        self._lock.holds(&mutex.lock)
    }

    /// The guard was given out by a mutex equal to `mutex` and holds its
    /// lock. Values carry no address, so two mutexes created alike are not
    /// told apart here.
    pub open spec fn guards(&self, mutex: &Mutex<T>) -> bool {
        &&& self.guarded() == *mutex
        &&& self.holds_lock_of(mutex)
    }

    /// The mutex this guard holds
    pub fn mutex(&self) -> (r: &'a Mutex<T>)
        ensures
            self.guards(r),
    {
        proof {
            use_type_invariant(self);
        }
        self.mutex
    }

    /// The cell holding the guarded value. While this guard lives, its holder
    /// is the only one that may read or write the value.
    pub fn cell(&self) -> (r: &'a UnsafeCell<T>)
        ensures
            *r == self.guarded().storage(),
    {
        &self.mutex.data
    }
}

impl<T> Mutex<T> {
    /// The cell that holds the mutex's value.
    pub closed spec fn storage(&self) -> UnsafeCell<T> {
        self.data
    }

    /// The mutex was created free.
    pub closed spec fn created_unlocked(&self) -> bool {
        self.lock.created_unlocked()
    }

    /// Creates a new `Mutex` from the given value, free
    pub fn new(val: T) -> (r: Self)
        ensures
            r.created_unlocked(),
    {
        Self { lock: SpinLock::new(), data: UnsafeCell::new(val) }
    }

    /// Consumes `self` and returns the inner `T` value
    ///
    /// Since we take `self` by value, we don't need to
    /// synchronize the access.
    pub fn into_inner(self) -> (r: T) {
        self.data.into_inner()
    }

    /// Returns a [lock guard](MutexGuard) for `self`, if it is
    /// available.
    /// If the operation would've locked the execution, returns
    /// [None] immediately
    ///
    /// The lock is held until the `MutexGuard` is dropped. Whether it is free
    /// is decided by the other threads; a guard that is returned holds this
    /// mutex.
    pub fn try_lock(&self) -> (r: Option<MutexGuard<'_, T>>)
        ensures
            r matches Some(g) ==> g.guards(self),
    {
        match self.lock.try_lock() {
            Some(guard) => Some(MutexGuard { mutex: self, _lock: guard }),
            None => None,
        }
    }

    /// Gets a mutable reference to the object.
    ///
    /// Since this function gets a mutable `self` reference,
    /// we know the mutex is available: the reference is statically
    /// guaranteed to be unique.
    pub fn get_mut(&mut self) -> (r: &mut T) {
        self.data.get_mut()
    }

    /// Returns true if `self` is currently locked
    ///
    /// The answer is the lock's flag at the moment it is read; other threads
    /// may change it at once.
    pub fn is_locked(&self) -> (r: bool) {
        self.lock.is_locked()
    }
}

impl<T: Default> Default for Mutex<T> {
    fn default() -> (r: Self)
        ensures
            r.created_unlocked(),
    {
        Self::new(T::default())
    }
}

} // verus!
