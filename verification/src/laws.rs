//! Laws of the borrow discipline, proved over the model of a cell.
//!
//! Each law speaks of [`CellModel`], the model that the contracts of the
//! executable cell are stated over, so it holds of every run of the cell.
use crate::model::CellModel;
use crate::outcome::{BorrowError, Exit, Verdict};
use vstd::prelude::*;

verus! {

/// The allocation after `n` handles were made of it.
pub open spec fn clone_times<T>(m: CellModel<T>, n: nat) -> CellModel<T>
    decreases n,
{
    if n == 0 {
        m
    } else {
        clone_times(m.clone_handle(), (n - 1) as nat)
    }
}

/// The allocation after `n` handles were dropped, `None` once the last
/// handle is gone.
pub open spec fn drop_times<T>(m: CellModel<T>, n: nat) -> Option<CellModel<T>>
    decreases n,
{
    if n == 0 {
        Some(m)
    } else {
        match m.drop_handle() {
            Some(rest) => drop_times(rest, (n - 1) as nat),
            None => None,
        }
    }
}

/// The allocation after `n` requests for a read guard in a row, none of
/// the guards released in between.
pub open spec fn borrow_times<T>(m: CellModel<T>, n: nat) -> CellModel<T>
    decreases n,
{
    if n == 0 {
        m
    } else {
        borrow_times(m.borrow(), (n - 1) as nat)
    }
}

/// The allocation after `n` rounds of taking a read guard and releasing it
/// before the next round.
pub open spec fn read_rounds<T>(m: CellModel<T>, n: nat) -> CellModel<T>
    decreases n,
{
    if n == 0 {
        m
    } else {
        read_rounds(m.borrow().release_read(), (n - 1) as nat)
    }
}

/// A new cell is well formed and idle, and a read guard taken from it at
/// once is granted and shows the value the cell was made with.
pub proof fn law_new_then_borrow<T>(value: T, blocking: bool)
    ensures
        CellModel::fresh(value, blocking).wf(),
        CellModel::fresh(value, blocking).idle(),
        CellModel::fresh(value, blocking).read_verdict() == Verdict::Granted,
        CellModel::fresh(value, blocking).borrow().value == value,
        CellModel::fresh(value, blocking).borrow().readers == 1,
{
}

/// Every operation leaves a well-formed cell well formed, keeps its
/// strategy, and touches the value only through `store`.
pub proof fn law_operations_keep_well_formed<T>(m: CellModel<T>, value: T, exit: Exit)
    requires
        m.wf(),
    ensures
        m.borrow().wf() && m.borrow().blocking == m.blocking && m.borrow().value == m.value,
        m.borrow_mut().wf() && m.borrow_mut().blocking == m.blocking && m.borrow_mut().value
            == m.value,
        m.readers > 0 ==> m.release_read().wf() && m.release_read().blocking == m.blocking
            && m.release_read().value == m.value,
        m.writing ==> m.release_write(exit).wf() && m.release_write(exit).blocking == m.blocking
            && m.release_write(exit).value == m.value,
        m.store(value).wf() && m.store(value).blocking == m.blocking,
        m.clone_handle().wf() && m.clone_handle().blocking == m.blocking && m.clone_handle().value
            == m.value,
        m.drop_handle() matches Some(rest) ==> rest.wf() && rest.blocking == m.blocking
            && rest.value == m.value,
{
}

/// A request that is not granted changes nothing, and a granted request
/// registers exactly one borrow of its kind.
pub proof fn law_requests_register_or_leave<T>(m: CellModel<T>)
    ensures
        m.read_verdict() != Verdict::Granted ==> m.borrow() == m,
        m.write_verdict() != Verdict::Granted ==> m.borrow_mut() == m,
        m.read_verdict() == Verdict::Granted ==> m.borrow().readers == m.readers + 1
            && m.borrow().writing == m.writing,
        m.write_verdict() == Verdict::Granted ==> m.borrow_mut().writing && m.borrow_mut().readers
            == 0,
{
}

/// The write guard is granted to an idle cell only, so while it is out no
/// other guard is.
pub proof fn law_write_guard_is_exclusive<T>(m: CellModel<T>)
    requires
        m.wf(),
    ensures
        m.write_verdict() == Verdict::Granted ==> m.idle(),
        m.writing ==> m.read_verdict() != Verdict::Granted && m.write_verdict()
            != Verdict::Granted,
        m.readers > 0 ==> m.write_verdict() != Verdict::Granted,
{
}

/// Which failure a cell can report depends on its strategy alone: a
/// single-owner cell never suspends a request and never reports poison; a
/// cross-thread cell never reports a borrow conflict.
pub proof fn law_failures_by_strategy<T>(m: CellModel<T>)
    requires
        m.wf(),
    ensures
        !m.blocking ==> m.read_verdict() != Verdict::Suspended && m.write_verdict()
            != Verdict::Suspended,
        !m.blocking ==> m.read_verdict() != Verdict::Failed(BorrowError::LockPoisoned)
            && m.write_verdict() != Verdict::Failed(BorrowError::LockPoisoned),
        m.blocking ==> m.read_verdict() != Verdict::Failed(BorrowError::BorrowConflict)
            && m.write_verdict() != Verdict::Failed(BorrowError::BorrowConflict),
{
}

/// Making `n` handles adds `n` to the count and changes nothing else.
pub proof fn law_clone_times<T>(m: CellModel<T>, n: nat)
    ensures
        clone_times(m, n) == (CellModel { handles: m.handles + n, ..m }),
    decreases n,
{
    if n > 0 {
        law_clone_times(m.clone_handle(), (n - 1) as nat);
    }
}

/// The allocation lives exactly as long as a handle is left: dropping `n`
/// handles leaves it alive, with `n` handles fewer and nothing else
/// changed, when fewer than all are dropped, and ends it otherwise.
pub proof fn law_drop_times<T>(m: CellModel<T>, n: nat)
    requires
        m.handles >= 1,
    ensures
        n < m.handles ==> drop_times(m, n) == Some(
            CellModel { handles: (m.handles - n) as nat, ..m },
        ),
        n >= m.handles ==> drop_times(m, n).is_none(),
    decreases n,
{
    if n > 0 {
        match m.drop_handle() {
            Some(rest) => {
                law_drop_times(rest, (n - 1) as nat);
            },
            None => {},
        }
    }
}

/// After `n` handles were made and all but one of them dropped again, the
/// cell is alive with its value and its borrows as they were, so whatever
/// could be borrowed before can be borrowed through the handles left.
pub proof fn law_shared_ownership_survives<T>(m: CellModel<T>, n: nat)
    requires
        m.wf(),
        n >= 1,
    ensures
        drop_times(clone_times(m, n), (n - 1) as nat) == Some(m.clone_handle()),
        m.clone_handle().value == m.value,
        m.clone_handle().read_verdict() == m.read_verdict(),
        m.clone_handle().write_verdict() == m.write_verdict(),
{
    law_clone_times(m, n);
    law_drop_times(clone_times(m, n), (n - 1) as nat);
}

/// A new cell of which `n` more handles were made is ended by the drop of
/// handle number `n + 1`, not by any drop before it.
pub proof fn law_last_handle_ends_the_cell<T>(value: T, blocking: bool, n: nat, k: nat)
    ensures
        k <= n ==> drop_times(clone_times(CellModel::fresh(value, blocking), n), k).is_some(),
        k > n ==> drop_times(clone_times(CellModel::fresh(value, blocking), n), k).is_none(),
{
    let m = CellModel::fresh(value, blocking);
    law_clone_times(m, n);
    law_drop_times(clone_times(m, n), k);
}

/// Under the single-owner strategy, while the write guard is out a request
/// of either kind fails with a borrow conflict and changes nothing; once
/// the guard is released, however its scope was left, both are granted.
pub proof fn law_conflict_while_writing<T>(m: CellModel<T>, exit: Exit)
    requires
        m.wf(),
        !m.blocking,
        m.writing,
    ensures
        m.read_verdict() == Verdict::Failed(BorrowError::BorrowConflict),
        m.write_verdict() == Verdict::Failed(BorrowError::BorrowConflict),
        m.borrow() == m,
        m.borrow_mut() == m,
        m.release_write(exit).idle(),
        m.release_write(exit).read_verdict() == Verdict::Granted,
        m.release_write(exit).write_verdict() == Verdict::Granted,
{
}

/// Under the single-owner strategy, while a read guard is out a request
/// for the write guard fails with a borrow conflict and changes nothing;
/// once the last read guard is released it is granted.
pub proof fn law_conflict_while_reading<T>(m: CellModel<T>)
    requires
        m.wf(),
        !m.blocking,
        m.readers > 0,
    ensures
        m.write_verdict() == Verdict::Failed(BorrowError::BorrowConflict),
        m.borrow_mut() == m,
        m.readers == 1 ==> m.release_read().write_verdict() == Verdict::Granted,
{
}

/// Where one read guard can be had, any number can be had at once: each
/// of `n` requests in a row is granted, and all `n` guards are out
/// together afterwards.
pub proof fn law_readers_coexist<T>(m: CellModel<T>, n: nat)
    requires
        m.read_verdict() == Verdict::Granted,
    ensures
        borrow_times(m, n) == (CellModel { readers: m.readers + n, ..m }),
        borrow_times(m, n).read_verdict() == Verdict::Granted,
    decreases n,
{
    if n > 0 {
        law_readers_coexist(m.borrow(), (n - 1) as nat);
    }
}

/// Under the cross-thread strategy, while the write guard is out a request
/// of either kind is suspended and changes nothing, whatever the holder
/// stores meanwhile. Once the holder has released the guard in the
/// ordinary way, the request is granted and finds the value stored last.
pub proof fn law_writer_waits_then_sees<T>(m: CellModel<T>, value: T)
    requires
        m.wf(),
        m.blocking,
        m.writing,
    ensures
        m.write_verdict() == Verdict::Suspended,
        m.read_verdict() == Verdict::Suspended,
        m.borrow_mut() == m,
        m.borrow() == m,
        m.store(value).write_verdict() == Verdict::Suspended,
        m.store(value).read_verdict() == Verdict::Suspended,
        m.store(value).release_write(Exit::Normal).write_verdict() == Verdict::Granted,
        m.store(value).release_write(Exit::Normal).read_verdict() == Verdict::Granted,
        m.store(value).release_write(Exit::Normal).borrow_mut().value == value,
        m.store(value).release_write(Exit::Normal).borrow().value == value,
{
}

/// Under the cross-thread strategy, while a read guard is out a request
/// for the write guard is suspended, and a request for one more read
/// guard is granted all the same: readers never wait for a writer that
/// waits. Once the last read guard is released the write guard is granted.
pub proof fn law_readers_go_first<T>(m: CellModel<T>)
    requires
        m.wf(),
        m.blocking,
        m.readers > 0,
    ensures
        m.write_verdict() == Verdict::Suspended,
        m.borrow_mut() == m,
        m.read_verdict() == Verdict::Granted,
        m.borrow().write_verdict() == Verdict::Suspended,
        m.readers == 1 ==> m.release_read().write_verdict() == Verdict::Granted,
{
}

/// Under the cross-thread strategy, a write guard released by a holder
/// that ended abnormally leaves the cell poisoned: every request from
/// then on fails with the poison error and changes nothing.
pub proof fn law_abnormal_exit_poisons<T>(m: CellModel<T>)
    requires
        m.wf(),
        m.blocking,
        m.writing,
    ensures
        m.release_write(Exit::Unwinding).wf(),
        m.release_write(Exit::Unwinding).poisoned,
        m.release_write(Exit::Unwinding).read_verdict() == Verdict::Failed(
            BorrowError::LockPoisoned,
        ),
        m.release_write(Exit::Unwinding).write_verdict() == Verdict::Failed(
            BorrowError::LockPoisoned,
        ),
        m.release_write(Exit::Unwinding).borrow() == m.release_write(Exit::Unwinding),
        m.release_write(Exit::Unwinding).borrow_mut() == m.release_write(Exit::Unwinding),
{
}

/// Poison stays: a poisoned cell has no guard out and hands none out, so
/// all that can still happen to it is that handles are made and dropped,
/// and neither clears the poison.
pub proof fn law_poison_stays<T>(m: CellModel<T>)
    requires
        m.wf(),
        m.poisoned,
    ensures
        m.idle(),
        m.borrow() == m,
        m.borrow_mut() == m,
        m.clone_handle().poisoned,
        m.drop_handle() matches Some(rest) ==> rest.poisoned,
{
}

/// Taking a read guard and releasing it, any number of times over, leaves
/// the cell exactly as it was; on an idle cell no borrow is active between
/// two rounds.
pub proof fn law_read_rounds_change_nothing<T>(m: CellModel<T>, n: nat)
    requires
        m.read_verdict() == Verdict::Granted,
    ensures
        read_rounds(m, n) == m,
        m.idle() ==> read_rounds(m, n).idle(),
    decreases n,
{
    if n > 0 {
        assert(m.borrow().release_read() == m);
        law_read_rounds_change_nothing(m, (n - 1) as nat);
    }
}

} // verus!
