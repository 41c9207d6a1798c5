//! What this crate takes on trust from `portable_atomic`.
//!
//! A cell that other threads may write at any moment tells the verifier
//! nothing about what a load returns. The specifications below therefore
//! only exclude the memory orderings on which the operations panic.

use portable_atomic::AtomicU128;
use std::sync::atomic::Ordering;
use vstd::prelude::*;

verus! {

/// `portable_atomic::AtomicU128`, opaque to the verifier.
#[verifier::external_type_specification]
#[verifier::external_body]
pub struct ExAtomicU128(AtomicU128);

/// The orderings that a load accepts.
pub open spec fn load_order(order: Ordering) -> bool {
    order != Ordering::Release && order != Ordering::AcqRel
}

/// The orderings that a store accepts.
pub open spec fn store_order(order: Ordering) -> bool {
    order != Ordering::Acquire && order != Ordering::AcqRel
}

/// `AtomicU128::new`: a cell that holds `v`. Nothing is claimed of the cell.
pub assume_specification[ AtomicU128::new ](v: u128) -> AtomicU128;

/// `AtomicU128::load`: the value that the cell holds at the moment of the
/// load, of which nothing is claimed. It panics on the orderings `Release`
/// and `AcqRel`, which are excluded.
pub assume_specification[ AtomicU128::load ](cell: &AtomicU128, order: Ordering) -> u128
    requires
        load_order(order),
;

/// `AtomicU128::store`: puts `val` into the cell. It panics on the orderings
/// `Acquire` and `AcqRel`, which are excluded.
pub assume_specification[ AtomicU128::store ](cell: &AtomicU128, val: u128, order: Ordering)
    requires
        store_order(order),
;

} // verus!
