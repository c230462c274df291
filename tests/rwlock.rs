use coop_rwlock::{Execution, RwLock, TaskId, WouldBlock};

fn switch(exec: &mut Execution, t: usize) {
    assert!(exec.switch_to(TaskId(t)), "task {} is not runnable", t);
}

#[test]
fn new_lock_is_unlocked_and_consumes_to_its_value() {
    let lock = RwLock::new(41u32);
    assert!(lock.is_unlocked());
    assert_eq!(lock.into_inner(), 41);
}

#[test]
fn uncontended_write_does_not_block() {
    let mut exec = Execution::new(1);
    let mut lock = RwLock::new(1u32);
    lock.lock(&mut exec, true);
    assert!(!exec.is_blocked(TaskId(0)));
    assert!(lock.is_waiting(TaskId(0)));
    let g = lock.write(&mut exec);
    assert!(lock.holds_write(TaskId(0)));
    assert!(!lock.is_waiting(TaskId(0)));
    assert!(!lock.is_unlocked());
    *g.deref_mut(&mut lock) += 9;
    assert_eq!(*g.deref(&lock), 10);
    g.release(&mut lock, &mut exec);
    assert!(lock.is_unlocked());
    assert_eq!(lock.into_inner(), 10);
}

#[test]
fn reader_blocks_behind_writer_and_commits_after_release() {
    let mut exec = Execution::new(2);
    let mut lock = RwLock::new(String::from("a"));
    // task A takes the write lock
    lock.lock(&mut exec, true);
    let ga = lock.write(&mut exec);
    // task B asks to read and is blocked
    switch(&mut exec, 1);
    lock.lock(&mut exec, false);
    assert!(exec.is_blocked(TaskId(1)));
    assert!(!exec.switch_to(TaskId(1)));
    assert_eq!(exec.runnable(), vec![TaskId(0)]);
    // A releases: B becomes runnable and commits as a reader
    switch(&mut exec, 0);
    ga.release(&mut lock, &mut exec);
    assert!(lock.is_unlocked());
    assert!(!exec.is_blocked(TaskId(1)));
    switch(&mut exec, 1);
    let gb = lock.read(&mut exec);
    assert!(lock.holds_read(TaskId(1)));
    assert!(!lock.holds_read(TaskId(0)));
    assert_eq!(gb.deref(&lock).as_str(), "a");
    gb.release(&mut lock, &mut exec);
    assert!(lock.is_unlocked());
}

#[test]
fn two_readers_hold_together() {
    let mut exec = Execution::new(2);
    let mut lock = RwLock::new(5u64);
    lock.lock(&mut exec, false);
    let ga = lock.read(&mut exec);
    switch(&mut exec, 1);
    lock.lock(&mut exec, false);
    assert!(!exec.is_blocked(TaskId(1)));
    let gb = lock.read(&mut exec);
    assert!(lock.holds_read(TaskId(0)));
    assert!(lock.holds_read(TaskId(1)));
    assert!(!lock.is_unlocked());
    assert_eq!(*ga.deref(&lock), 5);
    assert_eq!(*gb.deref(&lock), 5);
    gb.release(&mut lock, &mut exec);
    assert!(lock.holds_read(TaskId(0)));
    assert!(!lock.holds_read(TaskId(1)));
    switch(&mut exec, 0);
    ga.release(&mut lock, &mut exec);
    assert!(lock.is_unlocked());
    assert_eq!(lock.into_inner(), 5);
}

#[test]
fn writer_waits_for_both_readers() {
    let mut exec = Execution::new(3);
    let mut lock = RwLock::new(0i32);
    lock.lock(&mut exec, false);
    let ga = lock.read(&mut exec);
    switch(&mut exec, 1);
    lock.lock(&mut exec, false);
    let gb = lock.read(&mut exec);
    // writer C announces and is blocked
    switch(&mut exec, 2);
    lock.lock(&mut exec, true);
    assert!(exec.is_blocked(TaskId(2)));
    // A releases: C is woken, but readers still hold, so the lock is not free
    switch(&mut exec, 0);
    ga.release(&mut lock, &mut exec);
    assert!(!lock.is_unlocked());
    assert!(lock.holds_read(TaskId(1)));
    assert!(!exec.is_blocked(TaskId(2)));
    // C would block if it tried now
    switch(&mut exec, 2);
    assert!(lock.try_write(&mut exec).is_err());
    // B releases: now C commits
    switch(&mut exec, 1);
    gb.release(&mut lock, &mut exec);
    assert!(lock.is_unlocked());
    switch(&mut exec, 2);
    let gc = lock.write(&mut exec);
    assert!(lock.holds_write(TaskId(2)));
    *gc.deref_mut(&mut lock) = -3;
    gc.release(&mut lock, &mut exec);
    assert_eq!(lock.into_inner(), -3);
}

#[test]
fn one_writer_wins_the_race_and_the_others_are_blocked_again() {
    let mut exec = Execution::new(4);
    let mut lock = RwLock::new(0u8);
    lock.lock(&mut exec, true);
    let g0 = lock.write(&mut exec);
    for t in 1..4 {
        switch(&mut exec, t);
        lock.lock(&mut exec, true);
        assert!(exec.is_blocked(TaskId(t)));
    }
    switch(&mut exec, 0);
    g0.release(&mut lock, &mut exec);
    assert_eq!(
        exec.runnable(),
        vec![TaskId(0), TaskId(1), TaskId(2), TaskId(3)]
    );
    // task 2 wins
    switch(&mut exec, 2);
    let g2 = lock.write(&mut exec);
    assert!(lock.holds_write(TaskId(2)));
    assert!(exec.is_blocked(TaskId(1)));
    assert!(exec.is_blocked(TaskId(3)));
    assert!(lock.is_waiting(TaskId(1)));
    assert!(lock.is_waiting(TaskId(3)));
    assert_eq!(exec.runnable(), vec![TaskId(0), TaskId(2)]);
    // the next release gives the two losers a fresh chance
    g2.release(&mut lock, &mut exec);
    assert_eq!(
        exec.runnable(),
        vec![TaskId(0), TaskId(1), TaskId(2), TaskId(3)]
    );
    switch(&mut exec, 3);
    let g3 = lock.write(&mut exec);
    assert!(exec.is_blocked(TaskId(1)));
    assert!(!lock.is_waiting(TaskId(3)));
    g3.release(&mut lock, &mut exec);
    switch(&mut exec, 1);
    let g1 = lock.write(&mut exec);
    assert_eq!(exec.runnable(), vec![TaskId(0), TaskId(1), TaskId(2), TaskId(3)]);
    g1.release(&mut lock, &mut exec);
    assert!(lock.is_unlocked());
}

#[test]
fn committing_reader_blocks_announced_reader_until_release() {
    let mut exec = Execution::new(2);
    let mut lock = RwLock::new(());
    lock.lock(&mut exec, false);
    switch(&mut exec, 1);
    lock.lock(&mut exec, false);
    let gb = lock.read(&mut exec);
    assert!(exec.is_blocked(TaskId(0)));
    gb.release(&mut lock, &mut exec);
    assert!(!exec.is_blocked(TaskId(0)));
    switch(&mut exec, 0);
    let ga = lock.read(&mut exec);
    assert!(lock.holds_read(TaskId(0)));
    ga.release(&mut lock, &mut exec);
    assert!(lock.is_unlocked());
}

#[test]
fn reader_announcing_on_a_read_lock_is_not_blocked() {
    let mut exec = Execution::new(2);
    let mut lock = RwLock::new(0u8);
    lock.lock(&mut exec, false);
    let _ga = lock.read(&mut exec);
    switch(&mut exec, 1);
    lock.lock(&mut exec, false);
    assert!(!exec.is_blocked(TaskId(1)));
    assert!(lock.is_waiting(TaskId(1)));
}

#[test]
fn writer_announcing_on_a_read_lock_is_blocked() {
    let mut exec = Execution::new(2);
    let mut lock = RwLock::new(0u8);
    lock.lock(&mut exec, false);
    let _ga = lock.read(&mut exec);
    switch(&mut exec, 1);
    lock.lock(&mut exec, true);
    assert!(exec.is_blocked(TaskId(1)));
}

#[test]
fn try_read_succeeds_unless_a_writer_holds() {
    let mut exec = Execution::new(3);
    let mut lock = RwLock::new(8u16);
    let ga = lock.try_read(&mut exec).unwrap();
    assert!(lock.holds_read(TaskId(0)));
    switch(&mut exec, 1);
    let gb = lock.try_read(&mut exec).unwrap();
    assert!(lock.holds_read(TaskId(1)));
    assert_eq!(*gb.deref(&lock), 8);
    gb.release(&mut lock, &mut exec);
    switch(&mut exec, 0);
    ga.release(&mut lock, &mut exec);
    let gw = lock.try_write(&mut exec).unwrap();
    switch(&mut exec, 2);
    assert_eq!(lock.try_read(&mut exec).unwrap_err(), WouldBlock);
    assert!(!exec.is_blocked(TaskId(2)));
    assert!(!lock.is_waiting(TaskId(2)));
    switch(&mut exec, 0);
    gw.release(&mut lock, &mut exec);
    assert!(lock.is_unlocked());
}

#[test]
fn try_write_succeeds_only_on_an_unlocked_lock() {
    let mut exec = Execution::new(2);
    let mut lock = RwLock::new(1u8);
    let gw = lock.try_write(&mut exec).unwrap();
    assert!(lock.holds_write(TaskId(0)));
    switch(&mut exec, 1);
    assert_eq!(lock.try_write(&mut exec).unwrap_err(), WouldBlock);
    assert!(lock.holds_write(TaskId(0)));
    switch(&mut exec, 0);
    gw.release(&mut lock, &mut exec);
    let gr = lock.try_read(&mut exec).unwrap();
    switch(&mut exec, 1);
    assert_eq!(lock.try_write(&mut exec).unwrap_err(), WouldBlock);
    switch(&mut exec, 0);
    gr.release(&mut lock, &mut exec);
    switch(&mut exec, 1);
    assert!(lock.try_write(&mut exec).is_ok());
}

#[test]
fn successful_try_reblocks_waiters() {
    let mut exec = Execution::new(2);
    let mut lock = RwLock::new(0u8);
    switch(&mut exec, 1);
    lock.lock(&mut exec, true);
    assert!(!exec.is_blocked(TaskId(1)));
    switch(&mut exec, 0);
    let g = lock.try_write(&mut exec).unwrap();
    assert!(exec.is_blocked(TaskId(1)));
    g.release(&mut lock, &mut exec);
    assert!(!exec.is_blocked(TaskId(1)));
}

#[test]
fn into_inner_after_read_release_returns_original_value() {
    let mut exec = Execution::new(1);
    let mut lock = RwLock::new(vec![1, 2, 3]);
    lock.lock(&mut exec, false);
    let g = lock.read(&mut exec);
    assert_eq!(g.deref(&lock).len(), 3);
    g.release(&mut lock, &mut exec);
    assert_eq!(lock.into_inner(), vec![1, 2, 3]);
}
