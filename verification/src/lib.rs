//! Task-lifecycle and dependency-readiness core of a compute worker.
//!
//! The library is the authoritative record of a single task's state on a
//! worker node: whether it is still blocked on unresolved inputs, currently
//! executing with bound resources, or retired. It tracks the
//! outstanding-dependency count, detects the exact moment a task becomes
//! ready to run, and guards access to the resources and execution
//! environment that are bound to a running task.

pub mod cell;
pub mod model;
pub mod protocol;
pub mod task;
