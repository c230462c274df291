//! The scheduler context that the lock talks to: which task runs, and which
//! tasks are blocked. Which runnable task runs next is decided by the caller
//! of `switch_to`, the scheduler proper.
use vstd::prelude::*;

use crate::task::{TaskId, TaskSet};

verus! {

/// What a scheduler context holds, as mathematical values.
pub struct ExecutionView {
    /// The task whose code is executing.
    pub current: TaskId,
    /// Tasks `TaskId(0)` up to `TaskId(num_tasks - 1)` exist.
    pub num_tasks: nat,
    /// The tasks that may not be resumed until some task unblocks them.
    pub blocked: Set<TaskId>,
}

/// A scheduler context over a fixed number of tasks, of which exactly one runs at a time.
pub struct Execution {
    current: TaskId,
    num_tasks: usize,
    blocked: TaskSet,
}

impl Execution {
    pub closed spec fn view(&self) -> ExecutionView {
        ExecutionView { current: self.current, num_tasks: self.num_tasks as nat, blocked: self.blocked@ }
    }

    pub closed spec fn wf(&self) -> bool {
        &&& self.blocked.wf()
        &&& self.current.0 < self.num_tasks
    }

    /// A context with `num_tasks` runnable tasks, of which the first runs.
    pub fn new(num_tasks: usize) -> (r: Execution)
        requires
            num_tasks > 0,
        ensures
            r.wf(),
            r@ == (ExecutionView { current: TaskId(0), num_tasks: num_tasks as nat, blocked: Set::empty() }),
    {
        Execution { current: TaskId(0), num_tasks, blocked: TaskSet::new() }
    }

    /// The identity of the executing task.
    pub fn me(&self) -> (r: TaskId)
        ensures
            r == self@.current,
    {
        self.current
    }

    pub fn num_tasks(&self) -> (r: usize)
        ensures
            r == self@.num_tasks,
    {
        self.num_tasks
    }

    pub fn is_blocked(&self, t: TaskId) -> (r: bool)
        ensures
            r == self@.blocked.contains(t),
    {
        self.blocked.contains(t)
    }

    /// Marks the executing task as not runnable; it keeps executing until it yields.
    pub fn block_current(&mut self)
        requires
            old(self).wf(),
        ensures
            final(self).wf(),
            final(self)@ == (ExecutionView { blocked: old(self)@.blocked.insert(old(self)@.current), ..old(self)@ }),
    {
        let me = self.current;
        self.blocked.insert(me);
    }

    /// Marks task `t` as not runnable.
    pub fn block(&mut self, t: TaskId)
        requires
            old(self).wf(),
        ensures
            final(self).wf(),
            final(self)@ == (ExecutionView { blocked: old(self)@.blocked.insert(t), ..old(self)@ }),
    {
        self.blocked.insert(t);
    }

    /// Marks task `t` as runnable, whatever its state was.
    pub fn unblock(&mut self, t: TaskId)
        requires
            old(self).wf(),
        ensures
            final(self).wf(),
            final(self)@ == (ExecutionView { blocked: old(self)@.blocked.remove(t), ..old(self)@ }),
    {
        self.blocked.remove(t);
    }

    /// Marks task `t` as runnable if it is blocked, and does nothing otherwise.
    pub fn maybe_unblock(&mut self, t: TaskId)
        requires
            old(self).wf(),
        ensures
            final(self).wf(),
            final(self)@ == (ExecutionView { blocked: old(self)@.blocked.remove(t), ..old(self)@ }),
    {
        if self.blocked.contains(t) {
            self.blocked.remove(t);
        } else {
            assert(self@.blocked =~= self@.blocked.remove(t));
        }
    }

    /// The tasks that the scheduler may resume, in increasing order of id.
    pub fn runnable(&self) -> (r: Vec<TaskId>)
        requires
            self.wf(),
        ensures
            forall|i: int, j: int| 0 <= i < j < r@.len() ==> r@[i].0 < r@[j].0,
            forall|t: TaskId|
                r@.contains(t) <==> (t.0 < self@.num_tasks && !self@.blocked.contains(t)),
    {
        let mut r: Vec<TaskId> = Vec::new();
        let mut i: usize = 0;
        while i < self.num_tasks
            invariant
                self.wf(),
                i <= self.num_tasks,
                forall|a: int, b: int| 0 <= a < b < r@.len() ==> r@[a].0 < r@[b].0,
                forall|k: int| 0 <= k < r@.len() ==> r@[k].0 < i,
                forall|t: TaskId|
                    r@.contains(t) <==> (t.0 < i && !self@.blocked.contains(t)),
            decreases self.num_tasks - i,
        {
            let t = TaskId(i);
            let ghost before = r@;
            if !self.blocked.contains(t) {
                r.push(t);
                assert forall|u: TaskId| r@.contains(u) <==> (u.0 < i + 1 && !self@.blocked.contains(u)) by {
                    if before.contains(u) {
                        let k = choose|k: int| 0 <= k < before.len() && before[k] == u;
                        assert(r@[k] == u);
                    }
                    if u == t {
                        assert(r@[before.len() as int] == u);
                    }
                }
            }
            i = i + 1;
        }
        r
    }

    /// The scheduler's choice at a yield point: resumes task `t` if it exists and is
    /// runnable, and reports whether it did.
    pub fn switch_to(&mut self, t: TaskId) -> (r: bool)
        requires
            old(self).wf(),
        ensures
            final(self).wf(),
            r == (t.0 < old(self)@.num_tasks && !old(self)@.blocked.contains(t)),
            final(self)@ == (if r { ExecutionView { current: t, ..old(self)@ } } else { old(self)@ }),
    {
        if t.0 < self.num_tasks && !self.blocked.contains(t) {
            self.current = t;
            true
        } else {
            false
        }
    }
}

} // verus!
