//! The rules governing how a task's state may change, and their laws.
//!
//! A step is one legal move of the surrounding worker protocol: registering
//! a dependency, resolving one, binding a ready task to execution, driving
//! a running task, or retiring it. The laws proved here are the ones the
//! rest of the worker relies on: the three phases partition the state
//! space, the lifecycle only moves forward, retirement is terminal, and a
//! task given k dependencies signals readiness on exactly the k-th
//! resolution.

use vstd::prelude::*;

use crate::model::{ComputeTaskMsg, DataObjectRef};
use crate::task::{Task, TaskState};

verus! {

/// The task a dispatch message constructs: the message's identity and
/// priorities, an empty dependency list, and a wait count of zero.
pub open spec fn constructed_from(t: Task, msg: ComputeTaskMsg) -> bool {
    &&& t.id == msg.id
    &&& t.state == TaskState::Waiting(0u32)
    &&& t.priority == (msg.user_priority, msg.scheduler_priority)
    &&& t.deps@ == Seq::<DataObjectRef>::empty()
    &&& t.configuration == msg.configuration
    &&& t.instance_id == msg.instance_id
}

/// One more outstanding dependency is registered on a waiting task.
pub open spec fn register_step(pre: Task, post: Task) -> bool {
    &&& pre.waiting()
    &&& pre.wait_count() < u32::MAX
    &&& post.state == TaskState::Waiting((pre.wait_count() + 1) as u32)
}

/// One dependency of a waiting task is resolved.
pub open spec fn resolve_step(pre: Task, post: Task) -> bool {
    &&& pre.waiting()
    &&& pre.wait_count() > 0
    &&& post.state == TaskState::Waiting((pre.wait_count() - 1) as u32)
}

/// The executor binds an environment and an allocation to a ready task.
pub open spec fn bind_step(pre: Task, post: Task) -> bool {
    &&& pre.ready()
    &&& post.running()
}

/// The executor drives a running task through its environment handle; the
/// task stays running and keeps its allocation.
pub open spec fn drive_step(pre: Task, post: Task) -> bool {
    &&& pre.running()
    &&& post.running()
    &&& post.alloc_of() == pre.alloc_of()
}

/// Any collaborator retires the task, from any phase.
pub open spec fn retire_step(pre: Task, post: Task) -> bool {
    post.removed()
}

/// One legal move of the worker protocol. Every move leaves the immutable
/// identity of the task untouched.
pub open spec fn step(pre: Task, post: Task) -> bool {
    &&& pre.same_identity(&post)
    &&& {
        ||| register_step(pre, post)
        ||| resolve_step(pre, post)
        ||| bind_step(pre, post)
        ||| drive_step(pre, post)
        ||| retire_step(pre, post)
    }
}

/// Position of a task's phase in the forward order of the lifecycle.
pub open spec fn phase(t: Task) -> int {
    match t.state {
        TaskState::Waiting(_) => 0,
        TaskState::Running(_, _) => 1,
        TaskState::Removed => 2,
    }
}

/// At every point in time, waiting, running and removed are mutually
/// exclusive and collectively exhaustive.
pub proof fn lemma_phases_partition(t: Task)
    ensures
        t.waiting() || t.running() || t.removed(),
        !(t.waiting() && t.running()),
        !(t.waiting() && t.removed()),
        !(t.running() && t.removed()),
{
}

/// A task a dispatch message constructs is immediately ready, before any
/// resolution event.
pub proof fn lemma_constructed_is_ready(t: Task, msg: ComputeTaskMsg)
    requires
        constructed_from(t, msg),
    ensures
        t.ready(),
        t.waiting(),
        t.wait_count() == 0,
{
}

/// The lifecycle only moves forward: no legal move returns a task to an
/// earlier phase.
pub proof fn lemma_forward_only(pre: Task, post: Task)
    requires
        step(pre, post),
    ensures
        phase(pre) <= phase(post),
{
}

/// Retirement is terminal: once removed, no legal move leaves that phase,
/// so no transition back to waiting or running is possible.
pub proof fn lemma_removed_terminal(pre: Task, post: Task)
    requires
        step(pre, post),
        pre.removed(),
    ensures
        post.removed(),
{
}

/// The task as it stands after `n` further dependency registrations.
pub open spec fn after_registrations(t: Task, n: nat) -> Task
    decreases n,
{
    if n == 0 {
        t
    } else {
        let prev = after_registrations(t, (n - 1) as nat);
        Task { state: TaskState::Waiting((prev.wait_count() + 1) as u32), ..prev }
    }
}

/// The task as it stands after `n` further dependency resolutions.
pub open spec fn after_resolutions(t: Task, n: nat) -> Task
    decreases n,
{
    if n == 0 {
        t
    } else {
        let prev = after_resolutions(t, (n - 1) as nat);
        Task { state: TaskState::Waiting((prev.wait_count() - 1) as u32), ..prev }
    }
}

/// The boolean the next resolution call hands back: true iff that call
/// takes the count to zero.
pub open spec fn resolution_signals(t: Task) -> bool {
    t.wait_count() == 1
}

/// Registrations add up: `n` of them take a waiting task's count from `c`
/// to `c + n`, and each one is itself a legal step.
pub proof fn lemma_registrations_count(t: Task, n: nat)
    requires
        t.waiting(),
        t.wait_count() + n <= u32::MAX,
    ensures
        after_registrations(t, n).waiting(),
        after_registrations(t, n).wait_count() == t.wait_count() + n,
        t.same_identity(&after_registrations(t, n)),
        n > 0 ==> step(after_registrations(t, (n - 1) as nat), after_registrations(t, n)),
    decreases n,
{
    if n > 0 {
        lemma_registrations_count(t, (n - 1) as nat);
    }
}

/// Resolutions subtract: `n` of them take a waiting task's count from `c`
/// down to `c - n`, and each one is itself a legal step.
pub proof fn lemma_resolutions_count(t: Task, n: nat)
    requires
        t.waiting(),
        n <= t.wait_count(),
    ensures
        after_resolutions(t, n).waiting(),
        after_resolutions(t, n).wait_count() == t.wait_count() - n,
        t.same_identity(&after_resolutions(t, n)),
        n > 0 ==> step(after_resolutions(t, (n - 1) as nat), after_resolutions(t, n)),
    decreases n,
{
    if n > 0 {
        lemma_resolutions_count(t, (n - 1) as nat);
    }
}

/// The readiness protocol, whole: a task constructed ready and then given
/// `k` dependencies needs exactly `k` resolutions. The `i`-th resolution
/// finds a count of `k - i + 1` and signals readiness iff `i == k`; after
/// all `k` the task is ready, and after fewer it is not.
pub proof fn lemma_exactly_k_resolutions(t: Task, msg: ComputeTaskMsg, k: nat, i: nat)
    requires
        constructed_from(t, msg),
        k <= u32::MAX,
        1 <= i <= k,
    ensures
        after_resolutions(after_registrations(t, k), (i - 1) as nat).wait_count() == k - i + 1,
        resolution_signals(after_resolutions(after_registrations(t, k), (i - 1) as nat)) == (i
            == k),
        after_resolutions(after_registrations(t, k), i).ready() == (i == k),
        after_resolutions(after_registrations(t, k), k).ready(),
{
    lemma_registrations_count(t, k);
    lemma_resolutions_count(after_registrations(t, k), (i - 1) as nat);
    lemma_resolutions_count(after_registrations(t, k), i);
    lemma_resolutions_count(after_registrations(t, k), k);
}

} // verus!
