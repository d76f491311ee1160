//! The mathematical model of a cell and of its transitions.
//!
//! Contracts of the executable cell are stated over [`CellModel`]: each
//! operation maps the model before the call to the model after it.
use crate::outcome::{BorrowError, Exit, Verdict};
use vstd::prelude::*;

verus! {

/// One shared allocation: the value and the bookkeeping around it.
pub struct CellModel<T> {
    /// The wrapped value.
    pub value: T,
    /// Whether a conflicting request waits (`true`) or fails (`false`).
    pub blocking: bool,
    /// How many handles keep the allocation alive. Handles are counted,
    /// not told apart: none of them is the first.
    pub handles: nat,
    /// How many read guards are out.
    pub readers: nat,
    /// Whether the write guard is out.
    pub writing: bool,
    /// Whether a holder of the write guard ended abnormally.
    pub poisoned: bool,
}

impl<T> CellModel<T> {
    /// The allocation right after it was made: one handle, no guard out.
    pub open spec fn fresh(value: T, blocking: bool) -> Self {
        CellModel { value, blocking, handles: 1, readers: 0, writing: false, poisoned: false }
    }

    /// No guard of either kind is out.
    pub open spec fn idle(self) -> bool {
        self.readers == 0 && !self.writing
    }

    /// The allocation is alive, the write guard excludes every other guard,
    /// and poison only ever sits on an idle cell of the blocking strategy.
    pub open spec fn wf(self) -> bool {
        &&& self.handles >= 1
        &&& self.writing ==> self.readers == 0
        &&& self.poisoned ==> self.blocking && self.idle()
    }

    /// The answer to a request that overlaps a guard which excludes it.
    pub open spec fn on_conflict(self) -> Verdict {
        if self.blocking {
            Verdict::Suspended
        } else {
            Verdict::Failed(BorrowError::BorrowConflict)
        }
    }

    /// The answer to a request for a read guard.
    ///
    /// A request is judged against the guards that are out when it is
    /// made, and against nothing else: the cell keeps no queue of those
    /// that wait. So a reader is never held back by a writer that waits,
    /// and of several requesters that ask again after a release the first
    /// to ask is served.
    pub open spec fn read_verdict(self) -> Verdict {
        if self.writing {
            self.on_conflict()
        } else if self.poisoned {
            Verdict::Failed(BorrowError::LockPoisoned)
        } else {
            Verdict::Granted
        }
    }

    /// The answer to a request for the write guard: it is granted to an
    /// idle cell only.
    pub open spec fn write_verdict(self) -> Verdict {
        if self.writing || self.readers > 0 {
            self.on_conflict()
        } else if self.poisoned {
            Verdict::Failed(BorrowError::LockPoisoned)
        } else {
            Verdict::Granted
        }
    }

    /// The allocation after a request for a read guard: one more reader
    /// where the request is granted, unchanged otherwise.
    pub open spec fn borrow(self) -> Self {
        if self.read_verdict() == Verdict::Granted {
            CellModel { readers: self.readers + 1, ..self }
        } else {
            self
        }
    }

    /// The allocation after a request for the write guard: exclusively
    /// borrowed where the request is granted, unchanged otherwise.
    pub open spec fn borrow_mut(self) -> Self {
        if self.write_verdict() == Verdict::Granted {
            CellModel { writing: true, ..self }
        } else {
            self
        }
    }

    /// The allocation after one read guard was released.
    pub open spec fn release_read(self) -> Self
        recommends
            self.readers > 0,
    {
        CellModel { readers: (self.readers - 1) as nat, ..self }
    }

    /// The allocation after the write guard was released. Under the
    /// blocking strategy an abnormal exit leaves the cell poisoned.
    pub open spec fn release_write(self, exit: Exit) -> Self
        recommends
            self.writing,
    {
        CellModel {
            writing: false,
            poisoned: self.poisoned || (self.blocking && exit == Exit::Unwinding),
            ..self
        }
    }

    /// The allocation with another value in it.
    pub open spec fn store(self, value: T) -> Self {
        CellModel { value, ..self }
    }

    /// The allocation after one more handle was made.
    pub open spec fn clone_handle(self) -> Self {
        CellModel { handles: self.handles + 1, ..self }
    }

    /// The allocation after one handle was dropped: `None` when it was the
    /// last one, which ends the allocation and the value with it.
    pub open spec fn drop_handle(self) -> Option<Self> {
        if self.handles > 1 {
            Some(CellModel { handles: (self.handles - 1) as nat, ..self })
        } else {
            None
        }
    }
}

} // verus!
