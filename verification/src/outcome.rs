//! What a borrow request can come to.
use vstd::prelude::*;

verus! {

/// The two ways a borrow request can fail.
#[derive(Clone, Copy, Debug, PartialEq, Eq, Structural)]
pub enum BorrowError {
    /// The request overlaps a guard that excludes it. Only a cell under the
    /// single-owner strategy reports this; it marks a mistake in the caller.
    BorrowConflict,
    /// An earlier holder of the write guard ended abnormally while holding
    /// it, so the value can no longer be trusted. Only a cell under the
    /// cross-thread strategy reports this.
    LockPoisoned,
}

/// The answer to a borrow request, without the guard it may carry.
#[derive(Clone, Copy, Debug, PartialEq, Eq, Structural)]
pub enum Verdict {
    /// The guard is handed out.
    Granted,
    /// The requester has to wait for a release and ask again.
    Suspended,
    /// The request is refused for good.
    Failed(BorrowError),
}

/// The answer to a borrow request, with the guard where one is granted.
#[must_use]
#[derive(Debug)]
pub enum Outcome<G> {
    /// The borrow is registered and this guard stands for it.
    Granted(G),
    /// Nothing changed; the requester has to wait for a release and ask
    /// again.
    Suspended,
    /// Nothing changed; the request is refused for good.
    Failed(BorrowError),
}

impl<G> Outcome<G> {
    /// The answer with the guard left out.
    pub open spec fn spec_verdict(&self) -> Verdict {
        match self {
            Outcome::Granted(_) => Verdict::Granted,
            Outcome::Suspended => Verdict::Suspended,
            Outcome::Failed(e) => Verdict::Failed(*e),
        }
    }

    /// The answer with the guard left out.
    #[verifier::when_used_as_spec(spec_verdict)]
    pub fn verdict(&self) -> (v: Verdict)
        ensures
            v == self.spec_verdict(),
    {
        match self {
            Outcome::Granted(_) => Verdict::Granted,
            Outcome::Suspended => Verdict::Suspended,
            Outcome::Failed(e) => Verdict::Failed(*e),
        }
    }

    /// The guard of a granted request, `None` for any other answer.
    pub fn granted(self) -> (guard: Option<G>)
        ensures
            guard == match self {
                Outcome::Granted(g) => Some(g),
                _ => None,
            },
    {
        match self {
            Outcome::Granted(g) => Some(g),
            _ => None,
        }
    }
}

/// How control left the scope that held a write guard.
#[derive(Clone, Copy, Debug, PartialEq, Eq, Structural)]
pub enum Exit {
    /// The scope ended in the ordinary way.
    Normal,
    /// The holder ended abnormally while the guard was out.
    Unwinding,
}

} // verus!
