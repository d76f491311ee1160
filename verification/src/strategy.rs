//! The two enforcement strategies of the borrow discipline.
use vstd::prelude::*;

verus! {

/// How a cell answers a request that conflicts with a guard already out.
///
/// The strategy is a type parameter of the cell, so it is fixed when the
/// program is compiled and cannot change while the cell lives.
pub trait Strategy {
    /// `true` when a conflicting request waits for the conflict to clear,
    /// `false` when it fails at once.
    spec fn blocking() -> bool;

    /// The executable counterpart of [`Strategy::blocking`].
    fn is_blocking() -> (b: bool)
        ensures
            b == Self::blocking(),
    ;
}

/// Handles stay within one execution context; a conflicting request is a
/// programming error and fails at once with a borrow conflict.
#[derive(Clone, Copy, Debug)]
pub struct SingleOwner;

/// Handles travel between execution contexts; a conflicting request waits
/// until the conflicting guard is released.
#[derive(Clone, Copy, Debug)]
pub struct CrossThread;

impl Strategy for SingleOwner {
    open spec fn blocking() -> bool {
        false
    }

    fn is_blocking() -> (b: bool) {
        false
    }
}

impl Strategy for CrossThread {
    open spec fn blocking() -> bool {
        true
    }

    fn is_blocking() -> (b: bool) {
        true
    }
}

} // verus!
