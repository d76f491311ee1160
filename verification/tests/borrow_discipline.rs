use shared_res::{BorrowError, Exit, LocalRes, Outcome, ReadGuard, SyncRes, Verdict, WriteGuard};

fn reader<G>(outcome: Outcome<G>) -> G {
    outcome.granted().expect("the guard should have been granted")
}

#[test]
fn new_then_borrow_shows_the_value_single_owner() {
    let mut cell = LocalRes::new(41u32);
    let guard: ReadGuard = reader(cell.borrow());
    assert_eq!(*cell.read(&guard), 41);
    cell.release_read(guard);
}

#[test]
fn new_then_borrow_shows_the_value_cross_thread() {
    let mut cell = SyncRes::new(String::from("shared"));
    let guard = reader(cell.borrow());
    assert_eq!(cell.read(&guard).as_str(), "shared");
    cell.release_read(guard);
}

#[test]
fn new_cell_has_one_handle_and_no_guard_out() {
    let cell = LocalRes::new(0u8);
    assert_eq!(cell.handles(), 1);
    assert_eq!(cell.readers(), 0);
    assert!(!cell.is_writing());
    assert!(!cell.is_poisoned());
    let cell = SyncRes::new(0u8);
    assert_eq!(cell.handles(), 1);
    assert_eq!(cell.readers(), 0);
    assert!(!cell.is_writing());
    assert!(!cell.is_poisoned());
}

#[test]
fn single_owner_write_guard_conflicts_until_released() {
    let mut cell = LocalRes::new(1u32);
    let writer: WriteGuard = reader(cell.borrow_mut());
    assert!(cell.is_writing());

    assert_eq!(cell.borrow().verdict(), Verdict::Failed(BorrowError::BorrowConflict));
    assert_eq!(cell.borrow_mut().verdict(), Verdict::Failed(BorrowError::BorrowConflict));
    assert_eq!(cell.readers(), 0);
    assert!(cell.is_writing());

    cell.release_write(writer, Exit::Normal);
    assert!(!cell.is_writing());

    let guard = reader(cell.borrow());
    assert_eq!(*cell.read(&guard), 1);
    cell.release_read(guard);
    let writer = reader(cell.borrow_mut());
    cell.release_write(writer, Exit::Normal);
}

#[test]
fn single_owner_read_guard_conflicts_with_the_write_guard() {
    let mut cell = LocalRes::new(1u32);
    let first = reader(cell.borrow());
    let second = reader(cell.borrow());
    assert_eq!(cell.borrow_mut().verdict(), Verdict::Failed(BorrowError::BorrowConflict));
    cell.release_read(first);
    assert_eq!(cell.borrow_mut().verdict(), Verdict::Failed(BorrowError::BorrowConflict));
    cell.release_read(second);
    assert_eq!(cell.borrow_mut().verdict(), Verdict::Granted);
}

#[test]
fn single_owner_many_readers_together() {
    let mut cell = LocalRes::new(7u64);
    let mut guards = Vec::new();
    for expected in 1..=5usize {
        let outcome = cell.borrow();
        assert_eq!(outcome.verdict(), Verdict::Granted);
        guards.push(reader(outcome));
        assert_eq!(cell.readers(), expected);
    }
    for guard in guards.iter() {
        assert_eq!(*cell.read(guard), 7);
    }
    for (released, guard) in guards.into_iter().enumerate() {
        cell.release_read(guard);
        assert_eq!(cell.readers(), 4 - released);
    }
}

#[test]
fn single_owner_never_suspends_and_never_poisons() {
    let mut cell = LocalRes::new(3i32);
    let writer = reader(cell.borrow_mut());
    assert_ne!(cell.borrow().verdict(), Verdict::Suspended);
    cell.release_write(writer, Exit::Unwinding);
    assert!(!cell.is_poisoned());
    assert_eq!(cell.borrow().verdict(), Verdict::Granted);
}

#[test]
fn cross_thread_second_writer_waits_and_sees_the_write() {
    let mut cell = SyncRes::new(10u32);
    let first = reader(cell.borrow_mut());

    assert_eq!(cell.borrow_mut().verdict(), Verdict::Suspended);
    assert_eq!(cell.borrow().verdict(), Verdict::Suspended);
    assert!(cell.is_writing());
    assert_eq!(cell.readers(), 0);

    *cell.write(&first) = 11;
    assert_eq!(cell.borrow_mut().verdict(), Verdict::Suspended);
    cell.release_write(first, Exit::Normal);

    let second = reader(cell.borrow_mut());
    assert_eq!(*cell.write(&second), 11);
    *cell.write(&second) += 1;
    cell.release_write(second, Exit::Normal);

    let guard = reader(cell.borrow());
    assert_eq!(*cell.read(&guard), 12);
    cell.release_read(guard);
}

#[test]
fn cross_thread_readers_go_first_while_a_writer_waits() {
    let mut cell = SyncRes::new('a');
    let first = reader(cell.borrow());
    assert_eq!(cell.borrow_mut().verdict(), Verdict::Suspended);
    let second = reader(cell.borrow());
    assert_eq!(cell.readers(), 2);
    assert_eq!(cell.borrow_mut().verdict(), Verdict::Suspended);
    cell.release_read(first);
    assert_eq!(cell.borrow_mut().verdict(), Verdict::Suspended);
    cell.release_read(second);
    let writer = reader(cell.borrow_mut());
    assert_eq!(cell.borrow().verdict(), Verdict::Suspended);
    cell.release_write(writer, Exit::Normal);
}

#[test]
fn cross_thread_abnormal_exit_poisons() {
    let mut cell = SyncRes::new(5u32);
    let writer = reader(cell.borrow_mut());
    *cell.write(&writer) = 6;
    cell.release_write(writer, Exit::Unwinding);

    assert!(cell.is_poisoned());
    assert!(!cell.is_writing());
    assert_eq!(cell.borrow().verdict(), Verdict::Failed(BorrowError::LockPoisoned));
    assert_eq!(cell.borrow_mut().verdict(), Verdict::Failed(BorrowError::LockPoisoned));
    assert_eq!(cell.readers(), 0);
    assert!(!cell.is_writing());
    assert_eq!(cell.borrow().verdict(), Verdict::Failed(BorrowError::LockPoisoned));
}

#[test]
fn cross_thread_ordinary_exit_does_not_poison() {
    let mut cell = SyncRes::new(5u32);
    let writer = reader(cell.borrow_mut());
    cell.release_write(writer, Exit::Normal);
    assert!(!cell.is_poisoned());
    assert_eq!(cell.borrow_mut().verdict(), Verdict::Granted);
}

#[test]
fn read_rounds_leave_the_cell_idle() {
    let mut local = LocalRes::new(9u8);
    let mut sync = SyncRes::new(9u8);
    for _ in 0..100 {
        let guard = reader(local.borrow());
        assert_eq!(local.readers(), 1);
        assert_eq!(*local.read(&guard), 9);
        local.release_read(guard);
        assert_eq!(local.readers(), 0);
        assert!(!local.is_writing());

        let guard = reader(sync.borrow());
        assert_eq!(sync.readers(), 1);
        sync.release_read(guard);
        assert_eq!(sync.readers(), 0);
        assert!(!sync.is_writing());
    }
    assert_eq!(local.borrow_mut().verdict(), Verdict::Granted);
    assert_eq!(sync.borrow_mut().verdict(), Verdict::Granted);
    assert_eq!(local.handles(), 1);
    assert_eq!(sync.handles(), 1);
}

#[test]
fn write_guard_changes_the_value_in_place() {
    let mut cell = LocalRes::new(vec![1u8, 2]);
    let writer = reader(cell.borrow_mut());
    cell.write(&writer).push(3);
    cell.release_write(writer, Exit::Normal);
    let guard = reader(cell.borrow());
    assert_eq!(cell.read(&guard), &vec![1u8, 2, 3]);
    cell.release_read(guard);
}

#[test]
fn outcome_gives_its_verdict_and_its_guard() {
    let granted: Outcome<u8> = Outcome::Granted(4);
    assert_eq!(granted.verdict(), Verdict::Granted);
    assert_eq!(granted.granted(), Some(4));

    let suspended: Outcome<u8> = Outcome::Suspended;
    assert_eq!(suspended.verdict(), Verdict::Suspended);
    assert_eq!(suspended.granted(), None);

    let conflict: Outcome<u8> = Outcome::Failed(BorrowError::BorrowConflict);
    assert_eq!(conflict.verdict(), Verdict::Failed(BorrowError::BorrowConflict));
    assert_eq!(conflict.granted(), None);

    let poisoned: Outcome<u8> = Outcome::Failed(BorrowError::LockPoisoned);
    assert_eq!(poisoned.verdict(), Verdict::Failed(BorrowError::LockPoisoned));
    assert_eq!(poisoned.granted(), None);
}
