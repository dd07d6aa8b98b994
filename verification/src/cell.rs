//! The shared mutable cell that holds one task for its several owners.
//!
//! The task registry, the dependency-resolution path and the executor path
//! all work on the same task record. The cell owns that record and hands
//! out views of it: any number of shared (read-only) views, or exactly one
//! exclusive (read-write) view, never both at once. The discipline is the
//! borrow discipline of the language itself, enforced statically on the
//! cell's accessors, so a conflicting acquisition cannot be written at
//! all. The cell performs no scheduling and never blocks.

use vstd::prelude::*;

use crate::model::ComputeTaskMsg;
use crate::protocol::constructed_from;
use crate::task::{Task, TaskState};

verus! {

/// Handle to the single task record shared by the worker's paths.
pub struct TaskRef {
    task: Task,
}

impl TaskRef {
    /// The task the cell currently holds.
    pub closed spec fn task(&self) -> Task {
        self.task
    }

    /// Puts an already-built task into a fresh cell.
    pub fn wrap(task: Task) -> (r: TaskRef)
        ensures
            r.task() == task,
    {
        TaskRef { task }
    }

    /// Constructs the task a dispatch message describes and wraps it: the
    /// message's identity and priorities, an empty dependency list, and a
    /// wait count of zero — immediately ready, until the owner registers
    /// the dependencies still outstanding.
    pub fn new(message: ComputeTaskMsg) -> (r: TaskRef)
        ensures
            constructed_from(r.task(), message),
            r.task().ready(),
    {
        TaskRef::wrap(
            Task {
                id: message.id,
                priority: (message.user_priority, message.scheduler_priority),
                state: TaskState::Waiting(0),
                configuration: message.configuration,
                deps: Vec::new(),
                instance_id: message.instance_id,
            },
        )
    }

    /// A shared, read-only view of the task.
    pub fn get(&self) -> (t: &Task)
        ensures
            *t == self.task(),
    {
        &self.task
    }

    /// The exclusive, read-write view of the task. While the caller holds
    /// it, no other view can be acquired; the cell afterwards holds
    /// whatever the caller made of the task.
    pub fn get_mut(&mut self) -> (t: &mut Task)
        ensures
            *t == old(self).task(),
            final(self).task() == *final(t),
    {
        &mut self.task
    }
}

} // verus!
