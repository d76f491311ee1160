//! The resource cell and its guards.
use crate::model::CellModel;
use crate::outcome::{BorrowError, Exit, Outcome};
use crate::strategy::{CrossThread, SingleOwner, Strategy};
use std::marker::PhantomData;
use vstd::prelude::*;

verus! {

/// A shareable resource: one value, the handles that keep it alive and the
/// guards that are out on it.
///
/// The value is reached only through a guard. Read guards may be out in any
/// number; the write guard excludes every other guard. What a request
/// comes to when it meets a guard that excludes it is decided by the
/// strategy `S`.
#[derive(Debug)]
pub struct Res<T, S: Strategy> {
    value: T,
    ledger: Ledger<S>,
}

/// The bookkeeping of one allocation.
#[derive(Debug)]
struct Ledger<S: Strategy> {
    handles: usize,
    readers: usize,
    writing: bool,
    poisoned: bool,
    strategy: PhantomData<S>,
}

impl<S: Strategy> Ledger<S> {
    #[verifier::type_invariant]
    spec fn well_formed(self) -> bool {
        &&& self.handles >= 1
        &&& self.writing ==> self.readers == 0
        &&& self.poisoned ==> S::blocking() && self.readers == 0 && !self.writing
    }
}

/// A cell whose conflicting requests fail at once.
pub type LocalRes<T> = Res<T, SingleOwner>;

/// A cell whose conflicting requests wait.
pub type SyncRes<T> = Res<T, CrossThread>;

/// Stands for one registered read borrow until it is released.
#[derive(Debug)]
pub struct ReadGuard {
    token: (),
}

/// Stands for the registered write borrow until it is released.
#[derive(Debug)]
pub struct WriteGuard {
    token: (),
}

impl<T, S: Strategy> View for Res<T, S> {
    type V = CellModel<T>;

    closed spec fn view(&self) -> CellModel<T> {
        CellModel {
            value: self.value,
            blocking: S::blocking(),
            handles: self.ledger.handles as nat,
            readers: self.ledger.readers as nat,
            writing: self.ledger.writing,
            poisoned: self.ledger.poisoned,
        }
    }
}

impl<T, S: Strategy> Res<T, S> {
    /// Wrap a value in a shareable resource: one handle, no guard out.
    pub fn new(t: T) -> (res: Self)
        ensures
            res@ == CellModel::fresh(t, S::blocking()),
            res@.wf(),
    {
        Res {
            value: t,
            ledger: Ledger {
                handles: 1,
                readers: 0,
                writing: false,
                poisoned: false,
                strategy: PhantomData,
            },
        }
    }

    /// Register one more handle on the allocation, which then lives until
    /// that handle is dropped too.
    pub fn clone(&mut self)
        requires
            old(self)@.handles < usize::MAX,
        ensures
            final(self)@ == old(self)@.clone_handle(),
            final(self)@.wf(),
    {
        proof {
            use_type_invariant(&self.ledger);
        }
        self.ledger.handles = self.ledger.handles + 1;
    }

    /// Drop one handle. The last handle takes the allocation with it: the
    /// value is torn down here and nothing is handed back.
    ///
    /// A guard does not outlive the handle it was taken through, so the
    /// last handle goes only when no guard is out.
    pub fn drop_handle(self) -> (rest: Option<Self>)
        requires
            self@.handles > 1 || self@.idle(),
        ensures
            match rest {
                Some(cell) => self@.drop_handle() == Some(cell@) && cell@.wf(),
                None => self@.drop_handle().is_none(),
            },
    {
        proof {
            use_type_invariant(&self.ledger);
        }
        if self.ledger.handles > 1 {
            let mut cell = self;
            cell.ledger.handles = cell.ledger.handles - 1;
            Some(cell)
        } else {
            None
        }
    }

    fn on_conflict<G>() -> (outcome: Outcome<G>)
        ensures
            outcome == if S::blocking() {
                Outcome::<G>::Suspended
            } else {
                Outcome::<G>::Failed(BorrowError::BorrowConflict)
            },
    {
        if S::is_blocking() {
            Outcome::Suspended
        } else {
            Outcome::Failed(BorrowError::BorrowConflict)
        }
    }

    /// Ask for a read guard.
    ///
    /// The request is judged against the guards that are out right now: it
    /// is granted unless the write guard is out or the cell is poisoned,
    /// however many read guards are out already. A request that is not
    /// granted leaves the cell as it was.
    pub fn borrow(&mut self) -> (outcome: Outcome<ReadGuard>)
        requires
            old(self)@.readers < usize::MAX,
        ensures
            outcome.verdict() == old(self)@.read_verdict(),
            final(self)@ == old(self)@.borrow(),
            final(self)@.wf(),
    {
        proof {
            use_type_invariant(&self.ledger);
        }
        if self.ledger.writing {
            Self::on_conflict()
        } else if self.ledger.poisoned {
            Outcome::Failed(BorrowError::LockPoisoned)
        } else {
            self.ledger.readers = self.ledger.readers + 1;
            Outcome::Granted(ReadGuard { token: () })
        }
    }

    /// Ask for the write guard.
    ///
    /// The request is granted to an idle cell that is not poisoned, and to
    /// no other. A request that is not granted leaves the cell as it was.
    pub fn borrow_mut(&mut self) -> (outcome: Outcome<WriteGuard>)
        ensures
            outcome.verdict() == old(self)@.write_verdict(),
            final(self)@ == old(self)@.borrow_mut(),
            final(self)@.wf(),
    {
        proof {
            use_type_invariant(&self.ledger);
        }
        if self.ledger.writing || self.ledger.readers > 0 {
            Self::on_conflict()
        } else if self.ledger.poisoned {
            Outcome::Failed(BorrowError::LockPoisoned)
        } else {
            self.ledger.writing = true;
            Outcome::Granted(WriteGuard { token: () })
        }
    }

    /// Give a read guard back. The guard is used up, so it is given back
    /// once.
    pub fn release_read(&mut self, guard: ReadGuard)
        requires
            old(self)@.readers > 0,
        ensures
            final(self)@ == old(self)@.release_read(),
            final(self)@.wf(),
    {
        proof {
            use_type_invariant(&self.ledger);
        }
        let ReadGuard { token: () } = guard;
        self.ledger.readers = self.ledger.readers - 1;
    }

    /// Give the write guard back, saying how its scope was left. The guard
    /// is used up, so it is given back once. Under the cross-thread
    /// strategy a scope left by unwinding poisons the cell.
    pub fn release_write(&mut self, guard: WriteGuard, exit: Exit)
        requires
            old(self)@.writing,
        ensures
            final(self)@ == old(self)@.release_write(exit),
            final(self)@.wf(),
    {
        proof {
            use_type_invariant(&self.ledger);
        }
        let WriteGuard { token: () } = guard;
        self.ledger.writing = false;
        if S::is_blocking() {
            match exit {
                Exit::Unwinding => {
                    self.ledger.poisoned = true;
                },
                Exit::Normal => {},
            }
        }
    }

    /// Look at the value through a read guard.
    pub fn read(&self, guard: &ReadGuard) -> (value: &T)
        requires
            self@.readers > 0,
        ensures
            *value == self@.value,
    {
        &self.value
    }

    /// Reach the value through the write guard, to look at it or change it.
    pub fn write(&mut self, guard: &WriteGuard) -> (value: &mut T)
        requires
            old(self)@.writing,
        ensures
            *value == old(self)@.value,
            final(self)@ == old(self)@.store(*final(value)),
            final(self)@.wf(),
    {
        proof {
            use_type_invariant(&self.ledger);
        }
        &mut self.value
    }

    /// How many handles keep the allocation alive.
    pub fn handles(&self) -> (n: usize)
        ensures
            n == self@.handles,
            self@.wf(),
    {
        proof {
            use_type_invariant(&self.ledger);
        }
        self.ledger.handles
    }

    /// How many read guards are out.
    pub fn readers(&self) -> (n: usize)
        ensures
            n == self@.readers,
            self@.wf(),
    {
        proof {
            use_type_invariant(&self.ledger);
        }
        self.ledger.readers
    }

    /// Whether the write guard is out.
    pub fn is_writing(&self) -> (b: bool)
        ensures
            b == self@.writing,
            self@.wf(),
    {
        proof {
            use_type_invariant(&self.ledger);
        }
        self.ledger.writing
    }

    /// Whether the cell is poisoned.
    pub fn is_poisoned(&self) -> (b: bool)
        ensures
            b == self@.poisoned,
            self@.wf(),
    {
        proof {
            use_type_invariant(&self.ledger);
        }
        self.ledger.poisoned
    }
}

} // verus!
