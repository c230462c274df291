//! The reader-writer lock and its guards.
//!
//! Acquiring takes two steps around a yield to the scheduler: `lock` announces that the
//! executing task wants the lock and blocks it if the lock cannot be granted now; once
//! the scheduler resumes the task, `read` or `write` commits the acquisition and hands
//! back a guard. Releasing a guard wakes every waiter, after which the releasing task
//! yields again; the first waiter to commit wins, and re-blocks the others.
use vstd::prelude::*;

use crate::execution::Execution;
use crate::model::{
    blocking, lemma_announce_wf, lemma_commit_wf, lemma_release_read_wf, unblocking, Holder,
    LockView,
};
use crate::task::{TaskId, TaskSet};

verus! {

enum RwLockHolder {
    Read(TaskSet),
    Write(TaskId),
    Unlocked,
}

impl RwLockHolder {
    spec fn view(&self) -> Holder {
        match self {
            RwLockHolder::Read(r) => Holder::Read(r@),
            RwLockHolder::Write(w) => Holder::Write(*w),
            RwLockHolder::Unlocked => Holder::Unlocked,
        }
    }
}

struct RwLockState {
    holder: RwLockHolder,
    waiting_readers: TaskSet,
    waiting_writers: TaskSet,
}

impl RwLockState {
    spec fn view(&self) -> LockView {
        LockView {
            holder: self.holder@,
            waiting_readers: self.waiting_readers@,
            waiting_writers: self.waiting_writers@,
        }
    }

    spec fn wf(&self) -> bool {
        &&& self.waiting_readers.wf()
        &&& self.waiting_writers.wf()
        &&& self.holder matches RwLockHolder::Read(r) ==> r.wf()
        &&& self@.wf()
    }
}

/// The error of a non-blocking acquisition that would have had to block.
#[derive(Debug, PartialEq, Eq, Structural)]
pub struct WouldBlock;

/// A reader-writer lock protecting a value of type `T`.
pub struct RwLock<T> {
    data: T,
    state: RwLockState,
}

/// Shared access to a lock's value, held by one reader until it is released.
#[derive(Debug)]
pub struct RwLockReadGuard {
    task: TaskId,
}

/// Exclusive access to a lock's value, held by the writer until it is released.
#[derive(Debug)]
pub struct RwLockWriteGuard {
    task: TaskId,
}

fn block_set(tasks: &TaskSet, exec: &mut Execution)
    requires
        old(exec).wf(),
    ensures
        final(exec).wf(),
        final(exec)@ == blocking(old(exec)@, tasks@),
{
    let mut i: usize = 0;
    while i < tasks.len()
        invariant
            exec.wf(),
            i <= tasks.seq().len(),
            exec@.current == old(exec)@.current,
            exec@.num_tasks == old(exec)@.num_tasks,
            forall|t: TaskId|
                exec@.blocked.contains(t) <==> (old(exec)@.blocked.contains(t) || exists|j: int|
                    0 <= j < i && tasks.seq()[j] == t),
        decreases tasks.seq().len() - i,
    {
        exec.block(tasks.get(i));
        i = i + 1;
    }
    assert(exec@.blocked =~= old(exec)@.blocked.union(tasks@));
}

fn unblock_set(tasks: &TaskSet, exec: &mut Execution, should_be_blocked: bool)
    requires
        old(exec).wf(),
    ensures
        final(exec).wf(),
        final(exec)@ == unblocking(old(exec)@, tasks@),
{
    let mut i: usize = 0;
    while i < tasks.len()
        invariant
            exec.wf(),
            i <= tasks.seq().len(),
            exec@.current == old(exec)@.current,
            exec@.num_tasks == old(exec)@.num_tasks,
            forall|t: TaskId|
                exec@.blocked.contains(t) <==> (old(exec)@.blocked.contains(t) && !exists|j: int|
                    0 <= j < i && tasks.seq()[j] == t),
        decreases tasks.seq().len() - i,
    {
        let t = tasks.get(i);
        if should_be_blocked {
            exec.unblock(t);
        } else {
            exec.maybe_unblock(t);
        }
        i = i + 1;
    }
    assert(exec@.blocked =~= old(exec)@.blocked.difference(tasks@));
}

impl<T> RwLock<T> {
    /// The lock's book-keeping.
    pub closed spec fn view(&self) -> LockView {
        self.state@
    }

    /// The protected value.
    pub closed spec fn value(&self) -> T {
        self.data
    }

    pub closed spec fn wf(&self) -> bool {
        self.state.wf()
    }

    /// An unlocked lock that nobody waits for, protecting `value`.
    pub fn new(value: T) -> (r: RwLock<T>)
        ensures
            r.wf(),
            r@ == LockView::unlocked(),
            r.value() == value,
    {
        let state = RwLockState {
            holder: RwLockHolder::Unlocked,
            waiting_readers: TaskSet::new(),
            waiting_writers: TaskSet::new(),
        };
        RwLock { data: value, state }
    }

    /// Announces that the executing task wants the lock, for writing if `write`, and
    /// blocks the task if the lock cannot be granted to it now. The task must then yield
    /// to the scheduler, and commit with `read` or `write` once it is resumed.
    pub fn lock(&mut self, exec: &mut Execution, write: bool)
        requires
            old(self).wf(),
            old(exec).wf(),
            old(self)@.may_announce(old(exec)@.current),
        ensures
            final(self).wf(),
            final(self)@ == old(self)@.announce(old(exec)@.current, write),
            final(self).value() == old(self).value(),
            final(exec).wf(),
            final(exec)@ == (if old(self)@.must_block(write) {
                blocking(old(exec)@, set![old(exec)@.current])
            } else {
                old(exec)@
            }),
    {
        let me = exec.me();
        proof {
            lemma_announce_wf(self@, me, write);
        }
        if write {
            self.state.waiting_writers.insert(me);
        } else {
            self.state.waiting_readers.insert(me);
        }
        match &self.state.holder {
            RwLockHolder::Write(_) => {
                exec.block_current();
            },
            RwLockHolder::Read(_) => {
                if write {
                    exec.block_current();
                }
            },
            RwLockHolder::Unlocked => {},
        }
        assert(exec@.blocked =~= old(exec)@.blocked.union(set![me]) || !self@.must_block(write));
    }

    /// Commits a shared acquisition for the executing task, once the scheduler resumed it
    /// after `lock(exec, false)`: the task joins the readers, and every other waiter is
    /// blocked again.
    pub fn read(&mut self, exec: &mut Execution) -> (g: RwLockReadGuard)
        requires
            old(self).wf(),
            old(exec).wf(),
            old(self)@.may_commit(old(exec)@.current, false),
        ensures
            final(self).wf(),
            final(self)@ == old(self)@.commit(old(exec)@.current, false),
            final(self).value() == old(self).value(),
            final(exec).wf(),
            final(exec)@ == blocking(old(exec)@, final(self)@.waiters()),
            g.task() == old(exec)@.current,
    {
        self.commit(exec, false);
        RwLockReadGuard { task: exec.me() }
    }

    /// Commits an exclusive acquisition for the executing task, once the scheduler
    /// resumed it after `lock(exec, true)` and the lock is unlocked: the task becomes the
    /// writer, and every other waiter is blocked again.
    pub fn write(&mut self, exec: &mut Execution) -> (g: RwLockWriteGuard)
        requires
            old(self).wf(),
            old(exec).wf(),
            old(self)@.may_commit(old(exec)@.current, true),
        ensures
            final(self).wf(),
            final(self)@ == old(self)@.commit(old(exec)@.current, true),
            final(self).value() == old(self).value(),
            final(exec).wf(),
            final(exec)@ == blocking(old(exec)@, final(self)@.waiters()),
            g.task() == old(exec)@.current,
    {
        self.commit(exec, true);
        RwLockWriteGuard { task: exec.me() }
    }

    /// Takes shared access at once if no writer holds the lock, and otherwise fails
    /// without blocking and without changing anything.
    pub fn try_read(&mut self, exec: &mut Execution) -> (r: Result<RwLockReadGuard, WouldBlock>)
        requires
            old(self).wf(),
            old(exec).wf(),
            !old(self)@.holds(old(exec)@.current),
            !old(self)@.waiting_writers.contains(old(exec)@.current),
        ensures
            final(self).wf(),
            final(self).value() == old(self).value(),
            final(exec).wf(),
            r is Ok <==> !old(self)@.must_block(false),
            r matches Ok(g) ==> {
                &&& g.task() == old(exec)@.current
                &&& final(self)@ == old(self)@.commit(old(exec)@.current, false)
                &&& final(exec)@ == blocking(old(exec)@, final(self)@.waiters())
            },
            r is Err ==> final(self)@ == old(self)@ && final(exec)@ == old(exec)@,
    {
        match &self.state.holder {
            RwLockHolder::Write(_) => {
                return Err(WouldBlock);
            },
            _ => {},
        }
        Ok(self.read(exec))
    }

    /// Takes exclusive access at once if the lock is unlocked, and otherwise fails
    /// without blocking and without changing anything.
    pub fn try_write(&mut self, exec: &mut Execution) -> (r: Result<RwLockWriteGuard, WouldBlock>)
        requires
            old(self).wf(),
            old(exec).wf(),
            !old(self)@.holds(old(exec)@.current),
        ensures
            final(self).wf(),
            final(self).value() == old(self).value(),
            final(exec).wf(),
            r is Ok <==> !old(self)@.must_block(true),
            r matches Ok(g) ==> {
                &&& g.task() == old(exec)@.current
                &&& final(self)@ == old(self)@.commit(old(exec)@.current, true)
                &&& final(exec)@ == blocking(old(exec)@, final(self)@.waiters())
            },
            r is Err ==> final(self)@ == old(self)@ && final(exec)@ == old(exec)@,
    {
        match &self.state.holder {
            RwLockHolder::Unlocked => {},
            _ => {
                return Err(WouldBlock);
            },
        }
        Ok(self.write(exec))
    }

    /// Consumes the lock, which nobody may hold, and returns the protected value.
    pub fn into_inner(self) -> (r: T)
        requires
            self@.holder is Unlocked,
        ensures
            r == self.value(),
    {
        self.data
    }

    /// Whether nobody holds the lock.
    pub fn is_unlocked(&self) -> (r: bool)
        ensures
            r == (self@.holder is Unlocked),
    {
        match &self.state.holder {
            RwLockHolder::Unlocked => true,
            _ => false,
        }
    }

    /// Whether task `t` shares the lock as a reader.
    pub fn holds_read(&self, t: TaskId) -> (r: bool)
        ensures
            r == self@.holds_read(t),
    {
        match &self.state.holder {
            RwLockHolder::Read(readers) => readers.contains(t),
            _ => false,
        }
    }

    /// Whether task `t` holds the lock as its writer.
    pub fn holds_write(&self, t: TaskId) -> (r: bool)
        ensures
            r == self@.holds_write(t),
    {
        match &self.state.holder {
            RwLockHolder::Write(w) => *w == t,
            _ => false,
        }
    }

    /// Whether task `t` announced that it wants the lock and has not taken it yet.
    pub fn is_waiting(&self, t: TaskId) -> (r: bool)
        ensures
            r == self@.waiters().contains(t),
    {
        self.state.waiting_readers.contains(t) || self.state.waiting_writers.contains(t)
    }

    /// Makes the executing task the holder, takes it out of the waiting sets, and blocks
    /// every task that still waits: they lost the race for the lock.
    fn commit(&mut self, exec: &mut Execution, write: bool)
        requires
            old(self).wf(),
            old(exec).wf(),
            old(self)@.may_commit(old(exec)@.current, write),
        ensures
            final(self).wf(),
            final(self)@ == old(self)@.commit(old(exec)@.current, write),
            final(self).value() == old(self).value(),
            final(exec).wf(),
            final(exec)@ == blocking(old(exec)@, final(self)@.waiters()),
    {
        let me = exec.me();
        proof {
            lemma_commit_wf(self@, me, write);
        }
        match &mut self.state.holder {
            RwLockHolder::Read(readers) => {
                readers.insert(me);
            },
            _ => {
                if write {
                    self.state.holder = RwLockHolder::Write(me);
                } else {
                    let mut readers = TaskSet::new();
                    readers.insert(me);
                    assert(readers@ =~= set![me]);
                    self.state.holder = RwLockHolder::Read(readers);
                }
            },
        }
        if write {
            self.state.waiting_writers.remove(me);
        }
        self.state.waiting_readers.remove(me);
        assert(self@ == old(self)@.commit(me, write));
        Self::block_waiters(&self.state, exec, me);
    }

    fn block_waiters(state: &RwLockState, exec: &mut Execution, me: TaskId)
        requires
            old(exec).wf(),
            !state@.waiters().contains(me),
        ensures
            final(exec).wf(),
            final(exec)@ == blocking(old(exec)@, state@.waiters()),
    {
        block_set(&state.waiting_readers, exec);
        block_set(&state.waiting_writers, exec);
        assert(exec@.blocked =~= old(exec)@.blocked.union(state@.waiters()));
    }

    fn unblock_waiters(state: &RwLockState, exec: &mut Execution, me: TaskId, should_be_blocked: bool)
        requires
            old(exec).wf(),
            !state@.waiters().contains(me),
        ensures
            final(exec).wf(),
            final(exec)@ == unblocking(old(exec)@, state@.waiters()),
    {
        unblock_set(&state.waiting_readers, exec, should_be_blocked);
        unblock_set(&state.waiting_writers, exec, should_be_blocked);
        assert(exec@.blocked =~= old(exec)@.blocked.difference(state@.waiters()));
    }
}

impl RwLockReadGuard {
    /// The reader that holds this guard.
    pub closed spec fn task(&self) -> TaskId {
        self.task
    }

    /// The protected value, seen through this reader's share.
    pub fn deref<'a, T>(&self, lock: &'a RwLock<T>) -> (r: &'a T)
        requires
            lock@.holds_read(self.task()),
        ensures
            *r == lock.value(),
    {
        &lock.data
    }

    /// Gives up this reader's share; the last reader leaves the lock unlocked. Every
    /// waiter that is blocked becomes runnable, and the task must then yield.
    pub fn release<T>(self, lock: &mut RwLock<T>, exec: &mut Execution)
        requires
            old(lock).wf(),
            old(exec).wf(),
            old(lock)@.holds_read(self.task()),
        ensures
            final(lock).wf(),
            final(lock)@ == old(lock)@.release_read(self.task()),
            final(lock).value() == old(lock).value(),
            final(exec).wf(),
            final(exec)@ == unblocking(old(exec)@, old(lock)@.waiters()),
    {
        let me = self.task;
        proof {
            lemma_release_read_wf(lock@, me);
            assert(lock@.holds(me));
        }
        match &mut lock.state.holder {
            RwLockHolder::Read(readers) => {
                readers.remove(me);
            },
            _ => {},
        }
        match &lock.state.holder {
            RwLockHolder::Read(readers) => {
                if readers.is_empty() {
                    lock.state.holder = RwLockHolder::Unlocked;
                }
            },
            _ => {},
        }
        assert(lock@ == old(lock)@.release_read(me));
        RwLock::<T>::unblock_waiters(&lock.state, exec, me, false);
    }
}

impl RwLockWriteGuard {
    /// The writer that holds this guard.
    pub closed spec fn task(&self) -> TaskId {
        self.task
    }

    /// The protected value, seen by the writer.
    pub fn deref<'a, T>(&self, lock: &'a RwLock<T>) -> (r: &'a T)
        requires
            lock@.holds_write(self.task()),
        ensures
            *r == lock.value(),
    {
        &lock.data
    }

    /// The protected value, for the writer to change.
    pub fn deref_mut<'a, T>(&self, lock: &'a mut RwLock<T>) -> (r: &'a mut T)
        requires
            old(lock)@.holds_write(self.task()),
        ensures
            *r == old(lock).value(),
            final(lock).value() == *final(r),
            final(lock)@ == old(lock)@,
            old(lock).wf() ==> final(lock).wf(),
    {
        &mut lock.data
    }

    /// Gives the lock up, leaving it unlocked. Every waiter becomes runnable, and the
    /// task must then yield.
    pub fn release<T>(self, lock: &mut RwLock<T>, exec: &mut Execution)
        requires
            old(lock).wf(),
            old(exec).wf(),
            old(lock)@.holds_write(self.task()),
        ensures
            final(lock).wf(),
            final(lock)@ == old(lock)@.release_write(),
            final(lock).value() == old(lock).value(),
            final(exec).wf(),
            final(exec)@ == unblocking(old(exec)@, old(lock)@.waiters()),
    {
        let me = self.task;
        assert(lock@.holds(me));
        lock.state.holder = RwLockHolder::Unlocked;
        assert(lock@ == old(lock)@.release_write());
        RwLock::<T>::unblock_waiters(&lock.state, exec, me, true);
    }
}

} // verus!
