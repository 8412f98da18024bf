//! A spinlock, the core primitive of this crate

use core::sync::atomic::{AtomicBool, Ordering};
use vstd::prelude::*;

use crate::atomic_ops::{clear_flag, created_bool, new_bool};

verus! {

/// A spin lock synchronization primitive.
///
/// This object is used to create other synchronized data
/// structures, like [Mutex](crate::mutex::Mutex)
pub struct SpinLock {
    lock: AtomicBool,
}

/// A guard for the [SpinLock]
///
/// This structure represents a borrow of the spinlock.
/// When dropped, the [SpinLock] is marked as available again
#[must_use]
pub struct SpinLockGuard<'a> {
    lock: &'a AtomicBool,
}

impl<'a> Drop for SpinLockGuard<'a> {
    fn drop(&mut self)
        opens_invariants none
        no_unwind
    {
        clear_flag(self.lock);
    }
}

impl<'a> SpinLockGuard<'a> {
    /// The guard holds a flag equal, as a value, to that of `lock`. Values
    /// carry no address, so two locks created alike are not told apart here.
    pub closed spec fn holds(&self, lock: &SpinLock) -> bool {
        *self.lock == lock.lock
    }
}

impl SpinLock {
    /// The lock was created free: its flag was made clear.
    pub closed spec fn created_unlocked(&self) -> bool {
        self.lock == created_bool(false)
    }

    /// Creates a new `SpinLock`, free
    pub fn new() -> (r: Self)
        ensures
            r.created_unlocked(),
    {
        Self { lock: new_bool(false) }
    }

    /// Interprets the outcome of the exchange that `try_lock` makes on the
    /// flag (from `false` to `true`): the lock is taken exactly when the
    /// exchange succeeded, and the guard then holds this lock.
    pub fn guard_from_exchange(&self, exchange: Result<bool, bool>) -> (r: Option<SpinLockGuard<'_>>)
        ensures
            r is Some <==> exchange is Ok,
            r matches Some(g) ==> g.holds(self),
    {
        match exchange {
            Ok(_) => Some(SpinLockGuard { lock: &self.lock }),
            Err(_) => None,
        }
    }

    /// If the lock is available, returns a [SpinLockGuard] inside a [Some] variant.
    /// If it's borrowed, which would've caused the thread to wait for the previous
    /// guard to drop, returns immediately with a [None] variant.
    ///
    /// Whether the lock is free is decided by the other threads; a guard that
    /// is returned holds this lock.
    pub fn try_lock(&self) -> (r: Option<SpinLockGuard<'_>>)
        ensures
            r matches Some(g) ==> g.holds(self),
    {
        let exchange = self.lock.compare_exchange(false, true, Ordering::Acquire, Ordering::Relaxed);
        self.guard_from_exchange(exchange)
    }

    /// Returns true if the lock is currently borrowed
    ///
    /// The answer is the flag at the moment it is read; other threads may
    /// change it at once.
    pub fn is_locked(&self) -> (r: bool) {
        self.lock.load(Ordering::Relaxed)
    }
}

impl Default for SpinLock {
    fn default() -> (r: Self)
        ensures
            r.created_unlocked(),
    {
        Self::new()
    }
}

} // verus!
