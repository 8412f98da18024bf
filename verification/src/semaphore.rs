//! A counting semaphore

use core::sync::atomic::{AtomicU16, Ordering};
use vstd::prelude::*;

use crate::atomic_ops::{created_u16, new_u16, update_u16};

verus! {

/// The permits left after taking `n` from `value`, or `None` when fewer than
/// `n` are available.
pub open spec fn permits_taken(value: u16, n: u16) -> Option<u16> {
    if value >= n {
        Some((value - n) as u16)
    } else {
        None
    }
}

/// The count after adding `n` permits to `value`: atomic addition wraps
/// around at `u16::MAX`.
pub open spec fn permits_added(value: u16, n: u16) -> u16 {
    ((value + n) % 0x1_0000) as u16
}

/// Takes `n` permits from `value`: the decision that [`Semaphore::try_dec`]
/// applies to the counter it reads.
pub fn take_permits(value: u16, n: u16) -> (r: Option<u16>)
    ensures
        r == permits_taken(value, n),
{
    if value >= n {
        Some(value - n)
    } else {
        None
    }
}

/// What [`Semaphore::try_dec`] gives for the outcome of its update of the
/// counter: `Some` exactly when permits were taken.
pub fn permit_outcome(outcome: Result<u16, u16>) -> (r: Option<()>)
    ensures
        r is Some <==> outcome is Ok,
{
    match outcome {
        Ok(_) => Some(()),
        Err(_) => None,
    }
}

/// Taking permits after adding the same number gives the count back, unless
/// the addition wrapped around.
pub proof fn law_take_after_add(value: u16, n: u16)
    requires
        value + n <= u16::MAX,
    ensures
        permits_taken(permits_added(value, n), n) == Some(value),
{
}

/// Taking permits never leaves more than there were, and succeeds exactly
/// when at least `n` are available; taking none always succeeds.
pub proof fn law_take_bounds(value: u16, n: u16)
    ensures
        permits_taken(value, n) is Some <==> n <= value,
        permits_taken(value, n) matches Some(left) ==> left + n == value,
        permits_taken(value, 0) == Some(value),
{
}

/// A semaphore
///
/// A counter of permits: [inc](Self::inc) adds permits, [try_dec](Self::try_dec)
/// takes them when enough are available.
pub struct Semaphore {
    lock: AtomicU16,
}

impl Semaphore {
    /// The semaphore was created holding `value` permits.
    pub closed spec fn created_with(&self, value: u16) -> bool {
        self.lock == created_u16(value)
    }

    /// Creates a new semaphore. Its default value is 0
    pub fn new() -> (r: Self)
        ensures
            r.created_with(0),
    {
        Self { lock: new_u16(0) }
    }

    /// Creates a new semaphore with an initial `value`
    pub fn with_initial_value(value: u16) -> (r: Self)
        ensures
            r.created_with(value),
    {
        Self { lock: new_u16(value) }
    }

    /// Attempts to decrement the semaphore by `n`.
    /// If fewer than `n` permits are available, returns [None]
    ///
    /// The count is decided by the other threads; the decrement is the one
    /// [`take_permits`] computes on the count it reads, so taking no permit
    /// always succeeds.
    pub fn try_dec(&self, n: u16) -> (r: Option<()>)
        ensures
            n == 0 ==> r is Some,
    {
        let step = |value: u16| -> (left: Option<u16>)
            ensures
                left == permits_taken(value, n),
            { take_permits(value, n) };
        let outcome = update_u16(&self.lock, Ordering::Acquire, Ordering::Relaxed, step);
        permit_outcome(outcome)
    }

    /// Increments the semaphore by `n`, wrapping around at `u16::MAX` as
    /// atomic addition does.
    pub fn inc(&self, n: u16) {
        self.lock.fetch_add(n, Ordering::Release);
    }

    /// Returns the state of the counter
    ///
    /// The answer is the count at the moment it is read; other threads may
    /// change it at once.
    pub fn get_value(&self) -> (r: u16) {
        self.lock.load(Ordering::Relaxed)
    }
}

impl Default for Semaphore {
    fn default() -> (r: Self)
        ensures
            r.created_with(0),
    {
        Self::new()
    }
}

} // verus!
