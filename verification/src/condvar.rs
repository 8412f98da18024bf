//! Conditional Variable
//!
//! [Conditional variables](Condvar) provide a way to block a thread
//! while waiting for an event to occur.
//!
//! They are associated with a [Mutex](crate::Mutex), and allow a
//! thread to wait until another thread notifies a state change
//! (via [`notify_one`] or [`notify_all`]).
//!
//! Waiting is done in steps: [`Condvar::enroll`] registers the caller as a
//! waiter and releases its guard, [`Condvar::try_wake`] takes a wake-up if
//! one was handed out, and the mutex is then locked again.
//!
//! # notify_one vs notify_all
//! [`notify_one`] hands out at most one wake-up, [`notify_all`] one to every
//! registered waiter.
//!
//! [`notify_one`]: Condvar::notify_one
//! [`notify_all`]: Condvar::notify_all

use core::sync::atomic::{AtomicU16, Ordering};
use vstd::prelude::*;

use crate::atomic_ops::{created_u16, new_u16, update_u16};
use crate::mutex::{Mutex, MutexGuard};
use crate::semaphore::Semaphore;

verus! {

/// The number of waiters still registered after [`Condvar::notify_one`]
/// found `waiting` of them.
pub open spec fn waiting_after_notify_one(waiting: u16) -> u16 {
    if waiting > 0 {
        (waiting - 1) as u16
    } else {
        0
    }
}

/// The number of wake-ups that [`Condvar::notify_one`] hands out when it
/// found `waiting` waiters: one if there was any.
pub open spec fn woken_by_notify_one(waiting: u16) -> u16 {
    if waiting > 0 {
        1
    } else {
        0
    }
}

/// Unregisters the waiter that [`Condvar::notify_one`] wakes.
pub fn unregister_one(waiting: u16) -> (r: u16)
    ensures
        r == waiting_after_notify_one(waiting),
{
    if waiting > 0 {
        waiting - 1
    } else {
        0
    }
}

/// The wake-ups [`Condvar::notify_one`] hands out, given the waiters it found:
/// the smaller of their number and one.
pub fn wake_one_of(waiting: u16) -> (r: u16)
    ensures
        r == woken_by_notify_one(waiting),
{
    if waiting < 1 {
        waiting
    } else {
        1
    }
}

/// A notification neither loses nor invents waiters: those still registered
/// and those woken add up to those found, and at most one is woken, exactly
/// when there was one.
pub proof fn law_notify_one_conserves(waiting: u16)
    ensures
        waiting_after_notify_one(waiting) + woken_by_notify_one(waiting) == waiting,
        woken_by_notify_one(waiting) <= 1,
        woken_by_notify_one(waiting) == 1 <==> waiting > 0,
{
}

/// A Conditional Variable
///
/// Condvar provides a way to block a thread
/// while waiting for an event to occur.
pub struct Condvar {
    waiters: Semaphore,
    n_waiters: AtomicU16,
}

impl Condvar {
    /// The condition variable was created with no waiter registered and no
    /// wake-up handed out.
    pub closed spec fn created_idle(&self) -> bool {
        &&& self.waiters.created_with(0)
        &&& self.n_waiters == created_u16(0)
    }

    /// Creates a new [Condvar], with no waiter and no wake-up
    pub fn new() -> (r: Self)
        ensures
            r.created_idle(),
    {
        Self { waiters: Semaphore::new(), n_waiters: new_u16(0) }
    }

    /// First step of waiting: registers the caller as a waiter, then
    /// releases `guard` (dropped on return), so that a notification given once the lock is free
    /// reaches the caller. Returns the mutex to lock again once woken.
    pub fn enroll<'m, T>(&self, guard: MutexGuard<'m, T>) -> (r: &'m Mutex<T>)
        ensures
            guard.guards(r),
    {
        self.n_waiters.fetch_add(1, Ordering::Relaxed);
        guard.mutex()
    }

    /// Second step of waiting: takes one wake-up handed out by
    /// [notify_one](Self::notify_one) or [notify_all](Self::notify_all), if
    /// there is one. A waiter repeats this until it succeeds.
    pub fn try_wake(&self) -> (r: Option<()>) {
        self.waiters.try_dec(1)
    }

    /// Informs a possible waiting thread of a change.
    /// This will only wake up **ONE** single thread. If you want to wake up
    /// all threads waiting on this `Condvar`, use [notify_all](Self::notify_all)
    ///
    /// The waiter count it finds is decided by the other threads; it
    /// unregisters one waiter with [`unregister_one`] and hands out the
    /// wake-ups [`wake_one_of`] gives for the count it found.
    pub fn notify_one(&self) {
        let step = |waiting: u16| -> (left: Option<u16>)
            ensures
                left == Some(waiting_after_notify_one(waiting)),
            { Some(unregister_one(waiting)) };
        let found = update_u16(&self.n_waiters, Ordering::Relaxed, Ordering::Relaxed, step);
        match found {
            Ok(waiting) => self.waiters.inc(wake_one_of(waiting)),
            Err(_) => {},
        }
    }

    /// Informs all threads waiting for this `Condvar` of a change.
    /// Unlike [notify_one](Self::notify_one) this function will wake up **ALL**
    /// threads waiting: it unregisters every waiter and hands out one
    /// wake-up for each.
    pub fn notify_all(&self) {
        let waiting = self.n_waiters.fetch_min(0, Ordering::Relaxed);
        self.waiters.inc(waiting);
    }
}

impl Default for Condvar {
    fn default() -> (r: Self)
        ensures
            r.created_idle(),
    {
        Self::new()
    }
}

} // verus!
