//! Atomic operations whose behaviour the primitives rely on beyond what the
//! plain declarations of `core::sync::atomic` give.
//!
//! A read-modify-write through `fetch_update` is reported in terms of the
//! closure that decided it, and the releases performed when a guard is dropped
//! are declared not to unwind, as a drop must not. The atomics the
//! primitives build are made here too, so that a primitive can say what it
//! was created with.

use core::sync::atomic::{AtomicBool, AtomicU16, AtomicU64, AtomicUsize, Ordering};
use vstd::prelude::*;

use crate::rwlock::{read_released, write_released};

verus! {

/// The atomic flag that `AtomicBool::new(value)` makes. Creating an atomic
/// depends on its initial value alone; what the flag holds afterwards, other
/// threads decide, and nothing is named of it.
pub uninterp spec fn created_bool(value: bool) -> AtomicBool;

/// The atomic counter that `AtomicU16::new(value)` makes.
pub uninterp spec fn created_u16(value: u16) -> AtomicU16;

/// The atomic word that `AtomicU64::new(value)` makes.
pub uninterp spec fn created_u64(value: u64) -> AtomicU64;

/// The atomic counter that `AtomicUsize::new(value)` makes.
pub uninterp spec fn created_usize(value: usize) -> AtomicUsize;

/// The orderings with which an atomic may be loaded: a load panics with
/// `Release` and `AcqRel`.
pub open spec fn loadable(order: Ordering) -> bool {
    order == Ordering::Relaxed || order == Ordering::Acquire || order == Ordering::SeqCst
}

/// `AtomicBool::new`: a new flag holding `value`, the one
/// [`created_bool`] names for it.
#[verifier::external_body]
pub(crate) fn new_bool(value: bool) -> (r: AtomicBool)
    ensures
        r == created_bool(value),
{
    AtomicBool::new(value)
}

/// `AtomicU16::new`: a new counter holding `value`, the one
/// [`created_u16`] names for it.
#[verifier::external_body]
pub(crate) fn new_u16(value: u16) -> (r: AtomicU16)
    ensures
        r == created_u16(value),
{
    AtomicU16::new(value)
}

/// `AtomicU64::new`: a new word holding `value`, the one [`created_u64`]
/// names for it.
#[verifier::external_body]
pub(crate) fn new_u64(value: u64) -> (r: AtomicU64)
    ensures
        r == created_u64(value),
{
    AtomicU64::new(value)
}

/// `AtomicUsize::new`: a new counter holding `value`, the one
/// [`created_usize`] names for it.
#[verifier::external_body]
pub(crate) fn new_usize(value: usize) -> (r: AtomicUsize)
    ensures
        r == created_usize(value),
{
    AtomicUsize::new(value)
}

/// `AtomicBool::store(false, Release)`: clears the flag. A store with the
/// `Release` ordering never panics and opens no invariant; nothing is stated
/// of the stored value, which other threads may change at once.
#[verifier::external_body]
pub(crate) fn clear_flag(flag: &AtomicBool)
    opens_invariants none
    no_unwind
{
    flag.store(false, Ordering::Release)
}

/// `AtomicU16::fetch_update`: applies `f` to the current value until a
/// compare-and-swap succeeds or `f` declines. It loads with `fetch_order`,
/// which must therefore be one a load accepts. As documented, the result is
/// `Ok(previous)` when `f` returned `Some` on `previous`, and `Err(previous)`
/// when it returned `None`.
#[verifier::external_body]
pub(crate) fn update_u16<F: FnMut(u16) -> Option<u16>>(
    atomic: &AtomicU16,
    set_order: Ordering,
    fetch_order: Ordering,
    f: F,
) -> (r: Result<u16, u16>)
    requires
        loadable(fetch_order),
        forall|x: u16| f.requires((x,)),
    ensures
        r matches Ok(prev) ==> exists|next: u16| f.ensures((prev,), Some(next)),
        r matches Err(prev) ==> f.ensures((prev,), None),
{
    atomic.fetch_update(set_order, fetch_order, f)
}

/// `AtomicU64::fetch_update`: as for [`update_u16`], `fetch_order` must be
/// one a load accepts, and the result is
/// `Ok(previous)` when `f` returned `Some` on `previous`, and `Err(previous)`
/// when it returned `None`.
#[verifier::external_body]
pub(crate) fn update_u64<F: FnMut(u64) -> Option<u64>>(
    atomic: &AtomicU64,
    set_order: Ordering,
    fetch_order: Ordering,
    f: F,
) -> (r: Result<u64, u64>)
    requires
        loadable(fetch_order),
        forall|x: u64| f.requires((x,)),
    ensures
        r matches Ok(prev) ==> exists|next: u64| f.ensures((prev,), Some(next)),
        r matches Err(prev) ==> f.ensures((prev,), None),
{
    atomic.fetch_update(set_order, fetch_order, f)
}

/// `AtomicUsize::fetch_update`: as for [`update_u16`], `fetch_order` must be
/// one a load accepts, and the result is
/// `Ok(previous)` when `f` returned `Some` on `previous`, and `Err(previous)`
/// when it returned `None`.
#[verifier::external_body]
pub(crate) fn update_usize<F: FnMut(usize) -> Option<usize>>(
    atomic: &AtomicUsize,
    set_order: Ordering,
    fetch_order: Ordering,
    f: F,
) -> (r: Result<usize, usize>)
    requires
        loadable(fetch_order),
        forall|x: usize| f.requires((x,)),
    ensures
        r matches Ok(prev) ==> exists|next: usize| f.ensures((prev,), Some(next)),
        r matches Err(prev) ==> f.ensures((prev,), None),
{
    atomic.fetch_update(set_order, fetch_order, f)
}

/// `AtomicU64::fetch_sub(amount, Release)`: subtracts, wrapping, as atomic
/// arithmetic does. It never panics and opens no invariant; nothing is stated
/// of the word, which other threads may change at once. It is used only to
/// release a reader, so `amount` must take a read-lock word to
/// [`read_released`].
#[verifier::external_body]
pub(crate) fn sub_u64(atomic: &AtomicU64, amount: u64)
    requires
        forall|word: u64| 0 < word ==> word - amount == #[trigger] read_released(word),
    opens_invariants none
    no_unwind
{
    atomic.fetch_sub(amount, Ordering::Release);
}

/// `AtomicU64::fetch_and(mask, Release)`: keeps the bits of `mask`. It never
/// panics and opens no invariant; nothing is stated of the word, which other
/// threads may change at once. It is used only to release the writer, so
/// `mask` must take every state word to [`write_released`].
#[verifier::external_body]
pub(crate) fn and_u64(atomic: &AtomicU64, mask: u64)
    requires
        forall|word: u64| (word & mask) == #[trigger] write_released(word),
    opens_invariants none
    no_unwind
{
    atomic.fetch_and(mask, Ordering::Release);
}

} // verus!
