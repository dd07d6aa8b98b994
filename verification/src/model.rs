//! Plain data carried by a task on behalf of its collaborators.
//!
//! The scheduler, the data-object store, the resource allocator and the
//! execution environment are external to this core: it consumes their
//! handles but never interprets them. Each handle is therefore held here as
//! plain data, enough for the core's bookkeeping and for its callers to
//! round-trip values through the task record.

use vstd::prelude::*;

verus! {

/// Identifier a scheduler assigns to a task; immutable for the task's life.
pub type TaskId = u64;

/// Generation tag distinguishing reissued instances of a retried task.
pub type InstanceId = u32;

/// Ordinal value used for local run-queue tie-breaking; never recomputed here.
pub type Priority = i32;

/// Handle to a data object that a task depends on.
#[derive(Clone, Copy, Debug, PartialEq, Eq, Structural)]
pub struct DataObjectRef {
    /// Identifier of the data object in the store that produces it.
    pub id: u64,
}

/// Reserved compute capacity bound to a task only while it runs.
#[derive(Clone, Copy, Debug, PartialEq, Eq, Structural)]
pub struct ResourceAllocation {
    /// Number of reserved cores.
    pub cpus: u32,
    /// Reserved memory, in bytes.
    pub memory: u64,
}

/// Live execution context (process or sandbox) of a running task.
#[derive(Clone, Copy, Debug, PartialEq, Eq, Structural)]
pub struct TaskEnv {
    /// Handle under which the executor addresses the live context.
    pub handle: u64,
}

/// Payload describing what to execute; interpreted only by the execution
/// environment, opaque to this core.
#[derive(Clone, Debug, PartialEq, Eq)]
pub struct TaskConfiguration {
    /// The serialized description of the work.
    pub body: Vec<u8>,
}

/// Dispatch message from the scheduler: the sole input needed to construct
/// a task.
#[derive(Clone, Debug)]
pub struct ComputeTaskMsg {
    /// Identifier of the dispatched task.
    pub id: TaskId,
    /// Priority assigned by the user.
    pub user_priority: Priority,
    /// Priority computed by the scheduler.
    pub scheduler_priority: Priority,
    /// What the task is to execute.
    pub configuration: TaskConfiguration,
    /// Generation tag of this dispatch.
    pub instance_id: InstanceId,
}

} // verus!
