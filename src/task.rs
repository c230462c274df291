//! Task identities and sets of tasks.
use vstd::prelude::*;

verus! {

/// The identity of a task known to the scheduler.
#[derive(Clone, Copy, Debug, PartialEq, Eq, Structural)]
pub struct TaskId(pub usize);

/// An unordered set of task ids, kept as a vector without duplicates.
pub struct TaskSet {
    tasks: Vec<TaskId>,
}

impl TaskSet {
    /// The members in the order in which they are iterated.
    pub closed spec fn seq(&self) -> Seq<TaskId> {
        self.tasks@
    }

    pub open spec fn wf(&self) -> bool {
        self.seq().no_duplicates()
    }

    pub open spec fn view(&self) -> Set<TaskId> {
        self.seq().to_set()
    }

    pub fn new() -> (r: TaskSet)
        ensures
            r.wf(),
            r@ == Set::<TaskId>::empty(),
            r.seq().len() == 0,
    {
        let r = TaskSet { tasks: Vec::new() };
        assert(r@ =~= Set::<TaskId>::empty());
        r
    }

    fn index_of(&self, t: TaskId) -> (r: Option<usize>)
        ensures
            match r {
                Some(i) => i < self.seq().len() && self.seq()[i as int] == t,
                None => !self.seq().contains(t),
            },
    {
        let mut i: usize = 0;
        while i < self.tasks.len()
            invariant
                i <= self.tasks@.len(),
                forall|j: int| 0 <= j < i ==> self.tasks@[j] != t,
            decreases self.tasks@.len() - i,
        {
            if self.tasks[i] == t {
                return Some(i);
            }
            i = i + 1;
        }
        None
    }

    pub fn contains(&self, t: TaskId) -> (r: bool)
        ensures
            r == self@.contains(t),
    {
        self.index_of(t).is_some()
    }

    pub fn insert(&mut self, t: TaskId)
        requires
            old(self).wf(),
        ensures
            final(self).wf(),
            final(self)@ == old(self)@.insert(t),
    {
        if self.index_of(t).is_none() {
            let ghost s = self.tasks@;
            self.tasks.push(t);
            assert forall|x: TaskId| self@.contains(x) <==> old(self)@.insert(t).contains(x) by {
                if s.contains(x) {
                    let k = choose|k: int| 0 <= k < s.len() && s[k] == x;
                    assert(self.tasks@[k] == x);
                }
                if x == t {
                    assert(self.tasks@[s.len() as int] == x);
                }
            }
        }
        assert(self@ =~= old(self)@.insert(t));
    }

    pub fn remove(&mut self, t: TaskId)
        requires
            old(self).wf(),
        ensures
            final(self).wf(),
            final(self)@ == old(self)@.remove(t),
    {
        match self.index_of(t) {
            Some(i) => {
                let ghost s = self.tasks@;
                self.tasks.remove(i);
                assert forall|x: TaskId| self@.contains(x) <==> old(self)@.remove(t).contains(x) by {
                    if x != t && s.contains(x) {
                        let k = choose|k: int| 0 <= k < s.len() && s[k] == x;
                        if k < i {
                            assert(self.tasks@[k] == x);
                        } else {
                            assert(self.tasks@[k - 1] == x);
                        }
                    }
                }
                assert(self@ =~= old(self)@.remove(t));
            },
            None => {
                assert(self@ =~= old(self)@.remove(t));
            },
        }
    }

    pub fn is_empty(&self) -> (r: bool)
        ensures
            r == (self@ == Set::<TaskId>::empty()),
    {
        if self.tasks.len() == 0 {
            assert(self@ =~= Set::<TaskId>::empty());
            true
        } else {
            assert(self@.contains(self.tasks@[0]));
            false
        }
    }

    /// The number of members.
    pub fn len(&self) -> (r: usize)
        ensures
            r == self.seq().len(),
    {
        self.tasks.len()
    }

    /// The member at position `i` of the iteration order.
    pub fn get(&self, i: usize) -> (r: TaskId)
        requires
            i < self.seq().len(),
        ensures
            r == self.seq()[i as int],
    {
        self.tasks[i]
    }
}

} // verus!
