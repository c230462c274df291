//! The lock's state machine as mathematical values, and the laws it obeys.
use vstd::prelude::*;

use crate::execution::ExecutionView;
use crate::task::TaskId;

verus! {

/// Who holds the lock.
pub enum Holder {
    Unlocked,
    /// Shared by these readers.
    Read(Set<TaskId>),
    /// Held exclusively by this writer.
    Write(TaskId),
}

/// The lock's book-keeping: its holder and the tasks that announced that they want it.
pub struct LockView {
    pub holder: Holder,
    pub waiting_readers: Set<TaskId>,
    pub waiting_writers: Set<TaskId>,
}

impl LockView {
    pub open spec fn unlocked() -> LockView {
        LockView {
            holder: Holder::Unlocked,
            waiting_readers: Set::empty(),
            waiting_writers: Set::empty(),
        }
    }

    pub open spec fn waiters(self) -> Set<TaskId> {
        self.waiting_readers.union(self.waiting_writers)
    }

    pub open spec fn holds_read(self, t: TaskId) -> bool {
        self.holder matches Holder::Read(r) && r.contains(t)
    }

    pub open spec fn holds_write(self, t: TaskId) -> bool {
        self.holder == Holder::Write(t)
    }

    pub open spec fn holds(self, t: TaskId) -> bool {
        self.holds_read(t) || self.holds_write(t)
    }

    /// The invariant of every reachable state: a reader set is never empty, and no
    /// holder is also a waiter.
    pub open spec fn wf(self) -> bool {
        &&& self.holder matches Holder::Read(r) ==> r.finite() && r != Set::<TaskId>::empty()
        &&& forall|t: TaskId| self.holds(t) ==> !self.waiters().contains(t)
    }

    /// Whether a task that announces its wish for the lock must block first.
    pub open spec fn must_block(self, write: bool) -> bool {
        match self.holder {
            Holder::Unlocked => false,
            Holder::Read(_) => write,
            Holder::Write(_) => true,
        }
    }

    /// Whether a task resumed after announcing may take the lock now.
    pub open spec fn can_commit(self, write: bool) -> bool {
        match self.holder {
            Holder::Unlocked => true,
            Holder::Read(_) => !write,
            Holder::Write(_) => false,
        }
    }

    /// Task `me` records that it waits for the lock.
    pub open spec fn announce(self, me: TaskId, write: bool) -> LockView {
        if write {
            LockView { waiting_writers: self.waiting_writers.insert(me), ..self }
        } else {
            LockView { waiting_readers: self.waiting_readers.insert(me), ..self }
        }
    }

    /// Task `me` takes the lock and stops waiting for it.
    pub open spec fn commit(self, me: TaskId, write: bool) -> LockView {
        LockView {
            holder: match self.holder {
                Holder::Unlocked => if write {
                    Holder::Write(me)
                } else {
                    Holder::Read(set![me])
                },
                Holder::Read(r) => Holder::Read(r.insert(me)),
                Holder::Write(w) => Holder::Write(w),
            },
            waiting_readers: self.waiting_readers.remove(me),
            waiting_writers: if write {
                self.waiting_writers.remove(me)
            } else {
                self.waiting_writers
            },
        }
    }

    /// Reader `me` gives up its share; the last reader leaves the lock unlocked.
    pub open spec fn release_read(self, me: TaskId) -> LockView {
        LockView {
            holder: match self.holder {
                Holder::Read(r) => if r.remove(me) =~= Set::<TaskId>::empty() {
                    Holder::Unlocked
                } else {
                    Holder::Read(r.remove(me))
                },
                other => other,
            },
            ..self
        }
    }

    /// The writer gives the lock up.
    pub open spec fn release_write(self) -> LockView {
        LockView { holder: Holder::Unlocked, ..self }
    }

    /// What may announce: a task that does not hold the lock.
    pub open spec fn may_announce(self, me: TaskId) -> bool {
        !self.holds(me)
    }

    /// What may commit: the lock is free for the kind of access, the task does not
    /// hold it, and a reader is not also waiting to write.
    pub open spec fn may_commit(self, me: TaskId, write: bool) -> bool {
        &&& self.can_commit(write)
        &&& !self.holds(me)
        &&& !write ==> !self.waiting_writers.contains(me)
    }
}

/// The scheduler context after every task of `tasks` was blocked.
pub open spec fn blocking(e: ExecutionView, tasks: Set<TaskId>) -> ExecutionView {
    ExecutionView { blocked: e.blocked.union(tasks), ..e }
}

/// The scheduler context after every task of `tasks` was made runnable.
pub open spec fn unblocking(e: ExecutionView, tasks: Set<TaskId>) -> ExecutionView {
    ExecutionView { blocked: e.blocked.difference(tasks), ..e }
}

/// No lost wake-ups: the only tasks that the lock blocks are waiters; a waiter stays one
/// while other tasks announce, commit and release; and a release leaves every waiter
/// runnable.
pub proof fn lemma_no_lost_wakeups(
    s: LockView,
    e: ExecutionView,
    t: TaskId,
    other: TaskId,
    write: bool,
)
    requires
        s.waiters().contains(t),
        other != t,
    ensures
        s.announce(e.current, write).waiters().contains(e.current),
        s.commit(other, write).waiters().contains(t),
        s.announce(other, write).waiters().contains(t),
        s.release_read(other).waiters().contains(t),
        s.release_write().waiters().contains(t),
        !unblocking(e, s.waiters()).blocked.contains(t),
        forall|u: TaskId| blocking(e, s.waiters()).blocked.contains(u)
            ==> e.blocked.contains(u) || s.waiters().contains(u),
{
}

/// Announcing keeps the invariant.
pub proof fn lemma_announce_wf(s: LockView, me: TaskId, write: bool)
    requires
        s.wf(),
        s.may_announce(me),
    ensures
        s.announce(me, write).wf(),
{
    let n = s.announce(me, write);
    assert forall|t: TaskId| n.holds(t) implies !n.waiters().contains(t) by {
        assert(s.holds(t));
    }
}

/// Committing keeps the invariant.
pub proof fn lemma_commit_wf(s: LockView, me: TaskId, write: bool)
    requires
        s.wf(),
        s.may_commit(me, write),
    ensures
        s.commit(me, write).wf(),
{
    let n = s.commit(me, write);
    assert forall|t: TaskId| n.holds(t) implies !n.waiters().contains(t) by {
        if t != me {
            assert(s.holds(t));
        }
    }
    if !write {
        assert(n.holds_read(me));
    }
}

/// Releasing a read share keeps the invariant.
pub proof fn lemma_release_read_wf(s: LockView, me: TaskId)
    requires
        s.wf(),
        s.holds_read(me),
    ensures
        s.release_read(me).wf(),
{
    let n = s.release_read(me);
    assert forall|t: TaskId| n.holds(t) implies !n.waiters().contains(t) by {
        assert(s.holds(t));
    }
}

/// Mutual exclusion: in every state that satisfies the invariant, a writer holds the
/// lock alone, and at most one task holds it for writing.
pub proof fn lemma_mutual_exclusion(s: LockView, w: TaskId, t: TaskId)
    requires
        s.wf(),
        s.holds_write(w),
    ensures
        !s.holds_read(t),
        s.holds_write(t) ==> t == w,
{
}

/// Shared compatibility: a second reader joins a lock that a reader holds, while a
/// writer may commit only on an unlocked lock.
pub proof fn lemma_shared_compatibility(s: LockView, a: TaskId, b: TaskId)
    requires
        s.wf(),
        s.may_commit(a, false),
        a != b,
        !s.holds(b),
        !s.waiting_writers.contains(b),
    ensures
        s.commit(a, false).may_commit(b, false),
        s.commit(a, false).commit(b, false).holds_read(a),
        s.commit(a, false).commit(b, false).holds_read(b),
        !s.commit(a, false).can_commit(true),
        s.can_commit(true) <==> s.holder is Unlocked,
{
}

/// Release restores consistency: when the last reader or the writer releases, the lock
/// is unlocked and the waiting sets are those from before the release.
pub proof fn lemma_release_unlocks(s: LockView, t: TaskId)
    requires
        s.wf(),
        s.holds(t),
        s.holder is Read ==> s.holder->Read_0 == set![t],
    ensures
        s.holds_read(t) ==> s.release_read(t).holder is Unlocked,
        s.holds_write(t) ==> s.release_write().holder is Unlocked,
        s.release_read(t).waiters() == s.waiters(),
        s.release_write().waiters() == s.waiters(),
{
    if s.holds_read(t) {
        assert(s.holder->Read_0.remove(t) =~= Set::<TaskId>::empty());
    }
}

/// Acquiring an unlocked lock and releasing it again leaves it unlocked, with nothing
/// else changed but the task no longer waiting; while held it is not unlocked.
pub proof fn lemma_acquire_release_unlocks(s: LockView, me: TaskId, write: bool)
    requires
        s.wf(),
        s.holder is Unlocked,
        s.may_commit(me, write),
    ensures
        s.commit(me, write).holder !is Unlocked,
        write ==> s.commit(me, write).release_write().holder is Unlocked,
        !write ==> s.commit(me, write).release_read(me).holder is Unlocked,
{
    assert(set![me].remove(me) =~= Set::<TaskId>::empty());
}

} // verus!
