//! One-time initialization: [Once] and [OnceLock]

use core::cell::UnsafeCell;
use core::sync::atomic::{AtomicBool, Ordering};
use vstd::prelude::*;

use crate::atomic_ops::{created_bool, new_bool};
use crate::condvar::Condvar;
use crate::mutex::Mutex;

mod sealed;

verus! {

/// The condition variable of a waiteable [Once]: it wakes those waiting for
/// the initialization.
pub struct Waiteable(Condvar);

impl Waiteable {
    /// The condition variable was created with no waiter and no wake-up.
    pub closed spec fn created_idle(&self) -> bool {
        self.0.created_idle()
    }
}

impl Default for Waiteable {
    fn default() -> (r: Self)
        ensures
            r.created_idle(),
    {
        Waiteable(Condvar::new())
    }
}

/// What a [Once] does once it is initialized: nothing, or wake its waiters.
pub trait MaybeWaiteable: Default + sealed::SealedTrait {
    /// Tells those waiting that the initialization is done.
    fn notify(&self);
}

impl MaybeWaiteable for () {
    fn notify(&self) {
    }
}

impl MaybeWaiteable for Waiteable {
    fn notify(&self) {
        self.0.notify_all();
    }
}

/// What an attempt at the one-time call finds, and so does.
#[derive(Debug, Clone, Copy, PartialEq, Eq, Structural)]
pub enum CallStep {
    /// The [Once] is initialized: nothing to run.
    Done,
    /// The lock is held and the [Once] is not initialized: run the function.
    Run,
    /// Another thread holds the lock: hand the function back.
    Busy,
}

/// How a successful attempt at the one-time call went.
#[derive(Debug, Clone, Copy, PartialEq, Eq, Structural)]
pub enum CallOutcome {
    /// The function was run, and the [Once] is now initialized.
    Ran,
    /// The [Once] was already initialized; the function was not run.
    AlreadyDone,
}

/// The step of a call attempt, given whether it saw the [Once] initialized
/// at first, whether it then took the lock, and whether it saw the [Once]
/// initialized while holding it.
pub open spec fn call_step(seen_first: bool, lock_taken: bool, seen_under_lock: bool) -> CallStep {
    if seen_first {
        CallStep::Done
    } else if !lock_taken {
        CallStep::Busy
    } else if seen_under_lock {
        CallStep::Done
    } else {
        CallStep::Run
    }
}

/// Decides the step of [`Once::try_call_once`] from what it observed.
pub fn decide_call(seen_first: bool, lock_taken: bool, seen_under_lock: bool) -> (r: CallStep)
    ensures
        r == call_step(seen_first, lock_taken, seen_under_lock),
{
    if seen_first {
        CallStep::Done
    } else if !lock_taken {
        CallStep::Busy
    } else if seen_under_lock {
        CallStep::Done
    } else {
        CallStep::Run
    }
}

/// The function runs only under the lock and only while the [Once] is not
/// initialized; a lock held elsewhere hands it back.
pub proof fn law_call_runs_once(seen_first: bool, lock_taken: bool, seen_under_lock: bool)
    ensures
        call_step(seen_first, lock_taken, seen_under_lock) == CallStep::Run
            <==> !seen_first && lock_taken && !seen_under_lock,
        call_step(seen_first, lock_taken, seen_under_lock) == CallStep::Busy
            <==> !seen_first && !lock_taken,
{
}

/// Where a thread that waits for a [Once] stands after one attempt.
#[derive(Debug, Clone, Copy, PartialEq, Eq, Structural)]
pub enum WaitStep {
    /// The `Once` is initialized: the wait is over.
    Ready,
    /// Another thread held the lock; try again.
    Busy,
    /// The thread is registered as a waiter and must now take a wake-up
    /// ([`Once::try_wake`]) before it tries again.
    Enrolled,
}

/// The step a waiter is at, given whether it saw the [Once] initialized
/// at first, whether it then took the lock, and whether it saw the [Once]
/// initialized while holding it.
pub open spec fn wait_step(seen_first: bool, lock_taken: bool, seen_under_lock: bool) -> WaitStep {
    if seen_first {
        WaitStep::Ready
    } else if !lock_taken {
        WaitStep::Busy
    } else if seen_under_lock {
        WaitStep::Ready
    } else {
        WaitStep::Enrolled
    }
}

/// Decides the step of [`Once::begin_wait`] from what it observed.
pub fn decide_wait(seen_first: bool, lock_taken: bool, seen_under_lock: bool) -> (r: WaitStep)
    ensures
        r == wait_step(seen_first, lock_taken, seen_under_lock),
{
    if seen_first {
        WaitStep::Ready
    } else if !lock_taken {
        WaitStep::Busy
    } else if seen_under_lock {
        WaitStep::Ready
    } else {
        WaitStep::Enrolled
    }
}

/// Moves the element out of `slot` if the lock was `initialized`, leaving
/// the slot empty; otherwise leaves the slot as it is and gives nothing.
pub fn take_if<T>(initialized: bool, slot: &mut Option<T>) -> (r: Option<T>)
    ensures
        initialized ==> r == *old(slot) && *final(slot) == None::<T>,
        !initialized ==> r == None::<T> && *final(slot) == *old(slot),
{
    if initialized {
        slot.take()
    } else {
        None
    }
}

/// Borrows the element in `slot` if the lock is `initialized` and the slot
/// holds one; otherwise gives nothing and leaves the slot as it is.
pub fn get_mut_if<T>(initialized: bool, slot: &mut Option<T>) -> (r: Option<&mut T>)
    ensures
        !initialized ==> r is None && *final(slot) == *old(slot),
        initialized ==> (match *old(slot) {
            None => r is None && *final(slot) == None::<T>,
            Some(v) => r is Some && *r.unwrap() == v && *final(slot) == Some(*final(r.unwrap())),
        }),
{
    if initialized {
        slot.as_mut()
    } else {
        None
    }
}

/// A synchronization primitive for a one-time execution
///
/// This is a low-level primitive, used to compose others like [OnceLock].
///
/// The initialization runs while `gate` is held, so that no two threads run
/// it and a waiter registers before it can be missed; `is_init` is set
/// and cleared only while `gate` is held (or `self` is borrowed uniquely).
pub struct Once<W: MaybeWaiteable = ()> {
    gate: Mutex<()>,
    is_init: AtomicBool,
    cv: W,
}

impl<W: MaybeWaiteable> Once<W> {
    /// The [Once] was created uninitialized, with its lock free.
    pub closed spec fn created_uninitialized(&self) -> bool {
        &&& self.gate.created_unlocked()
        &&& self.is_init == created_bool(false)
    }

    /// One attempt at the one-time call: calls `f` if this [Once] is
    /// uninitialized and returns `Ok(Ran)`, or does nothing and returns
    /// `Ok(AlreadyDone)` if it is initialized; if another thread holds the
    /// lock (it may be running its own function right now), returns `f`
    /// back, uncalled, in `Err`. A caller repeats the attempt until it gets
    /// `Ok`.
    ///
    /// What it observes is decided by the other threads; what it does is
    /// the step [`decide_call`] gives for it.
    pub fn try_call_once<F: FnOnce()>(&self, f: F) -> (r: Result<CallOutcome, F>)
        requires
            f.requires(()),
        ensures
            r matches Err(g) ==> g == f,
            r matches Ok(outcome) && outcome == CallOutcome::Ran ==> f.ensures((), ()),
    {
        let seen_first = self.is_init.load(Ordering::Acquire);
        if decide_call(seen_first, false, false) == CallStep::Done {
            return Ok(CallOutcome::AlreadyDone);
        }
        match self.gate.try_lock() {
            Some(_guard) => {
                let seen_under_lock = self.is_init.load(Ordering::Acquire);
                if decide_call(false, true, seen_under_lock) == CallStep::Run {
                    f();
                    self.is_init.store(true, Ordering::Release);
                    self.cv.notify();
                    Ok(CallOutcome::Ran)
                } else {
                    Ok(CallOutcome::AlreadyDone)
                }
            },
            None => Err(f),
        }
    }

    /// Returns true if this [Once] is initialized
    ///
    /// The answer is the flag at the moment it is read, without waiting for
    /// an initialization that is running; another thread may initialize or
    /// reset it at once.
    pub fn is_initialized(&self) -> (r: bool) {
        self.is_init.load(Ordering::Acquire)
    }

    /// One attempt at resetting: if the lock is free, takes it, marks this
    /// [Once] as uninitialized again and returns `Some` of whether it was
    /// initialized; if another thread holds the lock (an initialization may
    /// be running), returns `None`. A caller repeats the attempt until it
    /// gets `Some`, so a reset never lands inside an initialization.
    pub fn try_reset(&self) -> (r: Option<bool>) {
        match self.gate.try_lock() {
            Some(_guard) => Some(self.is_init.swap(false, Ordering::AcqRel)),
            None => None,
        }
    }

    /// Resets the flag through a unique borrow: no other thread can hold the
    /// lock then, so no initialization is running.
    fn clear(&mut self) -> (r: bool) {
        self.is_init.swap(false, Ordering::AcqRel)
    }
}

impl Once<()> {
    /// Creates a new uninitialized [Once]
    pub fn new() -> (r: Self)
        ensures
            r.created_uninitialized(),
    {
        Self { gate: Mutex::new(()), is_init: new_bool(false), cv: () }
    }
}

impl Once<Waiteable> {
    /// The [Once] was created with no waiter registered and no wake-up
    /// handed out.
    pub closed spec fn created_without_waiters(&self) -> bool {
        self.cv.0.created_idle()
    }

    /// Creates a new waiteable [Once]
    ///
    /// Waiteable [Once]s can be waited for, with [begin_wait](Self::begin_wait)
    /// and [try_wake](Self::try_wake).
    pub fn new_waiteable() -> (r: Self)
        ensures
            r.created_uninitialized(),
            r.created_without_waiters(),
    {
        Self { gate: Mutex::new(()), is_init: new_bool(false), cv: Waiteable(Condvar::new()) }
    }

    /// One attempt at waiting for `self` to be initialized: `Ready` if it is;
    /// `Busy` if another thread holds the lock; otherwise the caller is
    /// registered as a waiter (while the lock is held, so the initialization
    /// cannot be missed) and `Enrolled` is returned.
    ///
    /// What it observes is decided by the other threads; the step is the one
    /// [`decide_wait`] gives for it, and the caller is enrolled exactly when
    /// that step is `Enrolled`.
    pub fn begin_wait(&self) -> (r: WaitStep) {
        if self.is_init.load(Ordering::Acquire) {
            return decide_wait(true, false, false);
        }
        match self.gate.try_lock() {
            Some(guard) => {
                let seen = self.is_init.load(Ordering::Acquire);
                let step = decide_wait(false, true, seen);
                if step == WaitStep::Enrolled {
                    self.cv.0.enroll(guard);
                }
                step
            },
            None => decide_wait(false, false, false),
        }
    }

    /// Takes the wake-up handed out when the initialization finished, if it
    /// was; an enrolled waiter repeats this until it succeeds.
    pub fn try_wake(&self) -> (r: Option<()>) {
        self.cv.0.try_wake()
    }
}

impl<W: MaybeWaiteable> Default for Once<W> {
    fn default() -> (r: Self)
        ensures
            r.created_uninitialized(),
    {
        Self { gate: Mutex::new(()), is_init: new_bool(false), cv: W::default() }
    }
}

/// A synchronization primitive that can only be written to once
///
/// The element is kept in a cell as an `Option`: `None` until it is set,
/// and dropped with the lock.
/// Writing it happens inside the [Once], which guarantees that only one
/// thread writes it and only once; the [Once] itself is not handed out, so it
/// is reset only through [`OnceLock::take`], which holds the lock uniquely.
#[verifier::reject_recursive_types(T)]
pub struct OnceLock<T, W: MaybeWaiteable = ()> {
    elem: UnsafeCell<Option<T>>,
    once: Once<W>,
}

impl<T, W: MaybeWaiteable> OnceLock<T, W> {
    /// The cell that holds the element, if any.
    pub closed spec fn storage(&self) -> UnsafeCell<Option<T>> {
        self.elem
    }

    /// The lock was created uninitialized.
    pub closed spec fn created_uninitialized(&self) -> bool {
        self.once.created_uninitialized()
    }
}

impl<T> OnceLock<T> {
    /// Creates a new uninitialized [OnceLock]
    pub fn new() -> (r: Self)
        ensures
            r.created_uninitialized(),
    {
        Self { elem: UnsafeCell::new(None), once: Once::new() }
    }
}

impl<T> OnceLock<T, Waiteable> {
    /// The lock was created with no waiter registered and no wake-up handed
    /// out.
    pub closed spec fn created_without_waiters(&self) -> bool {
        self.once.created_without_waiters()
    }

    /// Creates a new waiteable [OnceLock]
    pub fn new_waiteable() -> (r: Self)
        ensures
            r.created_uninitialized(),
            r.created_without_waiters(),
    {
        Self { elem: UnsafeCell::new(None), once: Once::new_waiteable() }
    }

    /// One attempt at waiting for `self` to be initialized, as
    /// [`Once::begin_wait`] does.
    pub fn begin_wait(&self) -> (r: WaitStep) {
        self.once.begin_wait()
    }

    /// Takes the wake-up handed out when the initialization finished, as
    /// [`Once::try_wake`] does.
    pub fn try_wake(&self) -> (r: Option<()>) {
        self.once.try_wake()
    }
}

impl<T, W: MaybeWaiteable> OnceLock<T, W> {
    /// One attempt at running `f` as the initialization, as
    /// [`Once::try_call_once`] does: `f` runs only if the lock is not
    /// initialized, and is given back, uncalled, if another thread holds the
    /// lock. The element may be written only from inside such an `f`.
    ///
    /// `f` is expected to leave the element in the cell; a lock marked
    /// initialized by an `f` that does not holds no element, and reads of it
    /// find none.
    pub fn try_call_once<F: FnOnce()>(&self, f: F) -> (r: Result<CallOutcome, F>)
        requires
            f.requires(()),
        ensures
            r matches Err(g) ==> g == f,
            r matches Ok(outcome) && outcome == CallOutcome::Ran ==> f.ensures((), ()),
    {
        self.once.try_call_once(f)
    }

    /// The cell of the element. It may be written only from inside the
    /// function run by [`Self::try_call_once`], and read once the lock is
    /// initialized.
    pub fn cell(&self) -> (r: &UnsafeCell<Option<T>>)
        ensures
            *r == self.storage(),
    {
        &self.elem
    }

    /// Tries to get a mutable reference to the element, if it is initialized
    ///
    /// Since this borrows self mutably, it is statically enforced that no other thread
    /// is accessing the element.
    ///
    /// Whether it is initialized is read from the flag; [`get_mut_if`]
    /// borrows the element accordingly.
    pub fn get_mut(&mut self) -> (r: Option<&mut T>) {
        let initialized = self.once.is_initialized();
        get_mut_if(initialized, self.elem.get_mut())
    }

    /// Returns true if this [OnceLock] is initialized
    pub fn is_initialized(&self) -> (r: bool) {
        self.once.is_initialized()
    }

    /// Resets this [OnceLock], returning the contained element if it was initialized.
    ///
    /// The flag is reset and its previous value read; [`take_if`] moves the
    /// element out accordingly.
    pub fn take(&mut self) -> (r: Option<T>) {
        let was_initialized = self.once.clear();
        take_if(was_initialized, self.elem.get_mut())
    }

    /// Consumes this [OnceLock], returning the contained element if it was initialized.
    pub fn into_inner(self) -> (r: Option<T>) {
        let mut this = self;
        this.take()
    }
}

impl<T, W: MaybeWaiteable> Default for OnceLock<T, W> {
    fn default() -> (r: Self)
        ensures
            r.created_uninitialized(),
    {
        Self { elem: UnsafeCell::new(None), once: Once::default() }
    }
}

} // verus!
