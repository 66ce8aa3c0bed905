//! Cooperative, single-threaded task scheduling.
//!
//! The executor owns one slot per spawned task and a FIFO queue of the tasks
//! that are ready to run.  Tasks are resumed strictly in the order they became
//! ready: spawning and waking append to the back of the queue, and the next
//! task to resume is always taken from the front.  A task that the running
//! code reports as suspended is re-marked ready only by a later wake; waking a
//! task that is not suspended is a no-op, not an error.
//!
//! The suspended computations themselves (and the halt-until-interrupt idle
//! loop) live with the surrounding kernel; this type makes every scheduling
//! decision for them.

use vstd::prelude::*;

verus! {

/// Identity of a spawned task: its slot index, assigned at spawn time.
pub type TaskId = usize;

#[derive(PartialEq, Eq, Structural, Clone, Copy, Debug)]
pub enum TaskState {
    Ready,
    Running,
    Suspended,
    Completed,
}

/// FIFO-readiness cooperative executor state.
pub struct SimpleExecutor {
    states: Vec<TaskState>,
    ready: Vec<TaskId>,
    current: Option<TaskId>,
}

impl SimpleExecutor {
    /// One state per task ever spawned; a task's id indexes this sequence.
    pub closed spec fn tasks(&self) -> Seq<TaskState> {
        self.states@
    }

    /// Ids of the tasks that are ready to run, oldest first.
    pub closed spec fn ready_queue(&self) -> Seq<TaskId> {
        self.ready@
    }

    /// The task currently being resumed, if any.
    pub closed spec fn running(&self) -> Option<TaskId> {
        self.current
    }

    pub closed spec fn wf(&self) -> bool {
        &&& forall|i: int|
            0 <= i < self.ready@.len() ==> #[trigger] self.ready@[i] < self.states@.len()
                && self.states@[self.ready@[i] as int] == TaskState::Ready
        &&& forall|i: int, j: int|
            0 <= i < j < self.ready@.len() ==> #[trigger] self.ready@[i] != #[trigger] self.ready@[j]
        &&& match self.current {
            Some(c) => c < self.states@.len() && self.states@[c as int] == TaskState::Running
                && forall|t: int|
                0 <= t < self.states@.len() && t != c ==> #[trigger] self.states@[t]
                    != TaskState::Running,
            None => forall|t: int|
                0 <= t < self.states@.len() ==> #[trigger] self.states@[t] != TaskState::Running,
        }
    }

    pub fn new() -> (e: SimpleExecutor)
        ensures
            e.wf(),
            e.tasks() == Seq::<TaskState>::empty(),
            e.ready_queue() == Seq::<TaskId>::empty(),
            e.running() is None,
    {
        SimpleExecutor { states: Vec::new(), ready: Vec::new(), current: None }
    }

    /// Inserts a new task in the ready state, at the back of the FIFO queue,
    /// and returns its identity.
    pub fn spawn(&mut self) -> (id: TaskId)
        requires
            old(self).wf(),
        ensures
            final(self).wf(),
            id == old(self).tasks().len(),
            final(self).tasks() == old(self).tasks().push(TaskState::Ready),
            final(self).ready_queue() == old(self).ready_queue().push(id),
            final(self).running() == old(self).running(),
    {
        let id = self.states.len();
        self.states.push(TaskState::Ready);
        self.ready.push(id);
        id
    }

    /// Takes the task at the front of the ready queue — the one that became
    /// ready earliest — and marks it running.  Returns `None` when no task is
    /// ready.
    pub fn next_ready(&mut self) -> (r: Option<TaskId>)
        requires
            old(self).wf(),
            old(self).running() is None,
        ensures
            final(self).wf(),
            old(self).ready_queue().len() == 0 ==> r is None && *final(self) == *old(self),
            old(self).ready_queue().len() > 0 ==> {
                let id = old(self).ready_queue()[0];
                &&& r == Some(id)
                &&& final(self).ready_queue() == old(self).ready_queue().skip(1)
                &&& final(self).tasks() == old(self).tasks().update(
                    id as int,
                    TaskState::Running,
                )
                &&& final(self).running() == Some(id)
            },
    {
        if self.ready.len() == 0 {
            None
        } else {
            let id = self.ready.remove(0);
            self.states[id] = TaskState::Running;
            self.current = Some(id);
            Some(id)
        }
    }

    /// Records that the running task suspended itself; it will become ready
    /// again only through a later `wake`.
    pub fn suspend_current(&mut self)
        requires
            old(self).wf(),
            old(self).running() is Some,
        ensures
            final(self).wf(),
            final(self).tasks() == old(self).tasks().update(
                old(self).running()->0 as int,
                TaskState::Suspended,
            ),
            final(self).ready_queue() == old(self).ready_queue(),
            final(self).running() is None,
    {
        let id = self.current.unwrap();
        self.states[id] = TaskState::Suspended;
        self.current = None;
    }

    /// Records that the running task ran to completion; its slot is never
    /// resumed again.
    pub fn complete_current(&mut self)
        requires
            old(self).wf(),
            old(self).running() is Some,
        ensures
            final(self).wf(),
            final(self).tasks() == old(self).tasks().update(
                old(self).running()->0 as int,
                TaskState::Completed,
            ),
            final(self).ready_queue() == old(self).ready_queue(),
            final(self).running() is None,
    {
        let id = self.current.unwrap();
        self.states[id] = TaskState::Completed;
        self.current = None;
    }

    /// Marks a suspended task ready, at the back of the FIFO queue.  A wake
    /// aimed at a task that is not suspended (or at no valid task at all) is a
    /// no-op, not an error.
    pub fn wake(&mut self, id: TaskId)
        requires
            old(self).wf(),
        ensures
            final(self).wf(),
            final(self).running() == old(self).running(),
            id < old(self).tasks().len() && old(self).tasks()[id as int] == TaskState::Suspended
                ==> final(self).tasks() == old(self).tasks().update(id as int, TaskState::Ready)
                && final(self).ready_queue() == old(self).ready_queue().push(id),
            !(id < old(self).tasks().len() && old(self).tasks()[id as int]
                == TaskState::Suspended) ==> *final(self) == *old(self),
    {
        if id < self.states.len() && self.states[id] == TaskState::Suspended {
            self.states[id] = TaskState::Ready;
            self.ready.push(id);
        }
    }

    pub fn has_ready(&self) -> (r: bool)
        ensures
            r == (self.ready_queue().len() > 0),
    {
        self.ready.len() > 0
    }

    /// True when every spawned task has run to completion; the executor's run
    /// loop stops here.
    pub fn all_completed(&self) -> (r: bool)
        ensures
            r == forall|t: int|
                0 <= t < self.tasks().len() ==> #[trigger] self.tasks()[t] == TaskState::Completed,
    {
        let mut i: usize = 0;
        while i < self.states.len()
            invariant
                i <= self.states@.len(),
                forall|t: int| 0 <= t < i ==> #[trigger] self.states@[t] == TaskState::Completed,
            decreases self.states@.len() - i,
        {
            if self.states[i] != TaskState::Completed {
                return false;
            }
            i = i + 1;
        }
        true
    }

    /// The task currently being resumed, if any.
    pub fn running_task(&self) -> (r: Option<TaskId>)
        ensures
            r == self.running(),
    {
        self.current
    }

    pub fn task_count(&self) -> (n: usize)
        ensures
            n == self.tasks().len(),
    {
        self.states.len()
    }
}

/// Strict FIFO readiness.  `spawn` and `wake` append to the back of the ready
/// queue and `next_ready` consumes its front, leaving the rest in place: so
/// after any number of resumptions have consumed the front, the next task
/// resumed is exactly the next one in the order they became ready — a task
/// woken only after another became ready is resumed after it.
pub proof fn lemma_fifo_resumption(ready: Seq<TaskId>, k: int)
    requires
        0 <= k < ready.len(),
    ensures
        ready.skip(k).len() > 0,
        ready.skip(k)[0] == ready[k],
        ready.skip(k).skip(1) == ready.skip(k + 1),
{
    assert(ready.skip(k).skip(1) =~= ready.skip(k + 1));
}

} // verus!
