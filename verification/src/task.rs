//! The task entity and its lifecycle state machine.
//!
//! A task moves forward through three phases: waiting on unresolved
//! dependencies, running with bound resources, and removed. The wait count
//! is the number of dependencies not yet resolved; a waiting task with a
//! count of zero is ready — unblocked but not yet bound to execution.
//! Transitions between phases are performed by the owning worker logic by
//! replacing the state field; this core enforces the counting discipline
//! and guards payload access behind the variant checks.

use vstd::prelude::*;

use crate::model::{
    DataObjectRef, InstanceId, Priority, ResourceAllocation, TaskConfiguration, TaskEnv, TaskId,
};
use crate::protocol;

verus! {

/// Lifecycle state of one task; exactly one variant is active at any time.
pub enum TaskState {
    /// Blocked: the payload counts the dependencies not yet resolved.
    /// `Waiting(0)` is the distinct, observable ready sub-state.
    Waiting(u32),
    /// Executing: the live environment and the reserved resources are
    /// exclusively bound to the task for the duration of this variant.
    Running(TaskEnv, ResourceAllocation),
    /// Retired, permanently.
    Removed,
}

/// The record of one task: identity, priority, dependency list,
/// configuration and current lifecycle state.
pub struct Task {
    /// Scheduler-assigned identifier; immutable.
    pub id: TaskId,
    /// Current lifecycle state; replaced directly by the owning logic.
    pub state: TaskState,
    /// `(user priority, scheduler priority)`; immutable.
    pub priority: (Priority, Priority),
    /// The inputs the task needs before it can run; fixed at creation.
    pub deps: Vec<DataObjectRef>,
    /// What to execute; immutable, interpreted only by the executor.
    pub configuration: TaskConfiguration,
    /// Generation tag of this instance; immutable.
    pub instance_id: InstanceId,
}

impl Task {
    /// The task is still in the waiting phase, with any count.
    pub open spec fn waiting(&self) -> bool {
        self.state is Waiting
    }

    /// The task is ready: waiting with no unresolved dependency left.
    pub open spec fn ready(&self) -> bool {
        self.state == TaskState::Waiting(0u32)
    }

    /// The task is in the running phase.
    pub open spec fn running(&self) -> bool {
        self.state is Running
    }

    /// The task is retired.
    pub open spec fn removed(&self) -> bool {
        self.state is Removed
    }

    /// Number of unresolved dependencies: the wait count while waiting,
    /// zero in the other phases.
    pub open spec fn wait_count(&self) -> u32 {
        match self.state {
            TaskState::Waiting(n) => n,
            _ => 0u32,
        }
    }

    /// The environment bound to a running task.
    pub open spec fn env_of(&self) -> TaskEnv
        recommends
            self.running(),
    {
        self.state->Running_0
    }

    /// The allocation bound to a running task.
    pub open spec fn alloc_of(&self) -> ResourceAllocation
        recommends
            self.running(),
    {
        self.state->Running_1
    }

    /// The fields that are immutable for the task's lifetime agree between
    /// the two records.
    pub open spec fn same_identity(&self, other: &Task) -> bool {
        &&& other.id == self.id
        &&& other.priority == self.priority
        &&& other.deps@ == self.deps@
        &&& other.configuration == self.configuration
        &&& other.instance_id == self.instance_id
    }

    /// True iff the task is still in the waiting phase.
    pub fn is_waiting(&self) -> (r: bool)
        ensures
            r == self.waiting(),
    {
        matches!(self.state, TaskState::Waiting(_))
    }

    /// True iff the task is ready: unblocked, but not yet running.
    pub fn is_ready(&self) -> (r: bool)
        ensures
            r == self.ready(),
    {
        matches!(self.state, TaskState::Waiting(0))
    }

    /// True iff the task is running.
    pub fn is_running(&self) -> (r: bool)
        ensures
            r == self.running(),
    {
        matches!(self.state, TaskState::Running(_, _))
    }

    /// True iff the task is retired.
    pub fn is_removed(&self) -> (r: bool)
        ensures
            r == self.removed(),
    {
        matches!(self.state, TaskState::Removed)
    }

    /// The bound allocation of a running task; absent while waiting.
    /// Querying a retired task's resources is a logic error in the caller,
    /// so the retired phase is excluded outright.
    pub fn resource_allocation(&self) -> (r: Option<&ResourceAllocation>)
        requires
            !self.removed(),
        ensures
            self.running() ==> r == Some(&self.alloc_of()),
            self.waiting() ==> r is None,
    {
        match &self.state {
            TaskState::Running(_, a) => Some(a),
            TaskState::Waiting(_) => None,
            TaskState::Removed => vstd::pervasive::unreached(),
        }
    }

    /// Exclusive access to the live environment of a running task; absent
    /// in the other phases. Whatever the caller does with the handle, the
    /// task stays running, with the same allocation and identity.
    pub fn task_env_mut(&mut self) -> (r: Option<&mut TaskEnv>)
        ensures
            old(self).running() ==> (r matches Some(env)
                && *env == old(self).env_of()
                && final(self).state == TaskState::Running(*final(env), old(self).alloc_of())),
            !old(self).running() ==> (r is None && *final(self) == *old(self)),
            old(self).same_identity(final(self)),
            old(self).running() ==> protocol::step(*old(self), *final(self)),
    {
        match self.state {
            TaskState::Running(ref mut env, _) => Some(env),
            _ => None,
        }
    }

    /// The current wait count of a waiting task, zero otherwise.
    pub fn get_waiting(&self) -> (r: u32)
        ensures
            r == self.wait_count(),
    {
        match self.state {
            TaskState::Waiting(x) => x,
            _ => 0,
        }
    }

    /// Records the resolution of one dependency. Returns true iff this very
    /// call took the count to zero — the hand-off signal that lets the
    /// caller observe the readiness edge exactly once. Calling this with
    /// the count already at zero would be a double resolution, and calling
    /// it outside the waiting phase a misdirected one: both are excluded
    /// outright rather than tolerated.
    pub fn decrease_waiting_count(&mut self) -> (became_ready: bool)
        requires
            old(self).waiting(),
            old(self).wait_count() > 0,
        ensures
            final(self).state == TaskState::Waiting((old(self).wait_count() - 1) as u32),
            became_ready == (old(self).wait_count() == 1),
            became_ready == final(self).ready(),
            old(self).same_identity(final(self)),
            protocol::resolve_step(*old(self), *final(self)),
            protocol::step(*old(self), *final(self)),
    {
        match &mut self.state {
            TaskState::Waiting(x) => {
                *x = *x - 1;
                *x == 0
            },
            _ => vstd::pervasive::unreached(),
        }
    }

    /// Registers one more outstanding dependency. Valid only while the task
    /// is still waiting; the count must not exceed the machine limit.
    pub fn increase_waiting_count(&mut self)
        requires
            old(self).waiting(),
            old(self).wait_count() < u32::MAX,
        ensures
            final(self).state == TaskState::Waiting((old(self).wait_count() + 1) as u32),
            old(self).same_identity(final(self)),
            protocol::register_step(*old(self), *final(self)),
            protocol::step(*old(self), *final(self)),
    {
        match &mut self.state {
            TaskState::Waiting(x) => {
                *x = *x + 1;
            },
            _ => vstd::pervasive::unreached(),
        }
    }
}

} // verus!
