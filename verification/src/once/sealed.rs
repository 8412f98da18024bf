//! Restricts [`MaybeWaiteable`](super::MaybeWaiteable) to the two kinds of
//! [`Once`](super::Once) that this crate offers.

use vstd::prelude::*;

verus! {

/// Implemented only inside this crate.
pub trait SealedTrait {}

impl SealedTrait for () {}

impl SealedTrait for super::Waiteable {}

} // verus!
