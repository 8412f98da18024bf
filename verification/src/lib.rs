//! Spinlock-based synchronization primitives.
//!
//! Every primitive here is built on the atomics of `core`. The decisions each
//! primitive takes on the words it reads (when a lock may be taken, how many
//! permits remain, how many waiters are woken) are plain functions whose
//! contracts are proved; the words themselves change under other threads, so
//! what an operation observes is stated only as far as it holds of every
//! interleaving.
//!
//! Operations that wait for another thread (spinning until a lock is free or
//! a permit is available) are offered here as a single attempt: the caller
//! repeats the attempt until it succeeds.
//!
//! What this library does not do itself:
//! - It reaches no guarded value behind a shared reference: that needs a raw
//!   pointer into the `UnsafeCell` a guard hands out, so guards have no
//!   `Deref`, and `MutexGuard` no `Debug`, `Display`, `PartialEq` or
//!   `PartialOrd`.
//! - `Mutex`, `RwLock`, `Once`, `OnceLock` and `LazyLock` hold an
//!   `UnsafeCell` and are not declared `Sync`, so they cannot be shared
//!   between threads as they are; a wrapper that declares them so must live
//!   beside this crate.
//! - Constructors are not `const`, so no primitive can be built in a
//!   `static`, and `Mutex` and `RwLock` hold sized values only.
//! - `Once::is_initialized` does not wait for an initialization that is
//!   running; resetting a `Once` is an attempt that takes its lock.

pub mod cell;
pub mod atomic_ops;

pub mod spin;
pub mod semaphore;

pub mod mutex;
pub use mutex::Mutex;

pub mod condvar;
pub use condvar::Condvar;

pub mod rwlock;
pub use rwlock::RwLock;

pub mod once;
pub use once::OnceLock;

pub mod lazy;
pub use lazy::LazyLock;

pub mod arc;

pub use semaphore::Semaphore;
