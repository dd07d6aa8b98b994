use task_core::cell::TaskRef;
use task_core::model::{ComputeTaskMsg, ResourceAllocation, TaskConfiguration, TaskEnv};
use task_core::task::{Task, TaskState};

fn msg(id: u64, user: i32, sched: i32, instance: u32) -> ComputeTaskMsg {
    ComputeTaskMsg {
        id,
        user_priority: user,
        scheduler_priority: sched,
        configuration: TaskConfiguration { body: vec![1, 2, 3] },
        instance_id: instance,
    }
}

fn exactly_one_phase(t: &Task) -> bool {
    let phases: [bool; 3] = [t.is_waiting(), t.is_running(), t.is_removed()];
    phases.iter().filter(|p| **p).count() == 1
}

#[test]
fn construction_is_immediately_ready() {
    let r = TaskRef::new(msg(7, 5, 10, 1));
    let t = r.get();
    assert!(t.is_ready());
    assert!(t.is_waiting());
    assert!(!t.is_running());
    assert!(!t.is_removed());
    assert_eq!(t.get_waiting(), 0);
    assert!(t.deps.is_empty());
}

#[test]
fn construction_copies_the_message() {
    let r = TaskRef::new(msg(42, -3, 9, 5));
    let t = r.get();
    assert_eq!(t.id, 42);
    assert_eq!(t.priority, (-3, 9));
    assert_eq!(t.instance_id, 5);
    assert_eq!(t.configuration.body, vec![1, 2, 3]);
}

#[test]
fn scenario_three_dependencies() {
    let mut r = TaskRef::new(msg(1, 5, 10, 0));
    let t = r.get_mut();
    t.increase_waiting_count();
    t.increase_waiting_count();
    t.increase_waiting_count();
    assert_eq!(t.get_waiting(), 3);
    assert!(!t.is_ready());
    assert!(!t.decrease_waiting_count());
    assert!(!t.decrease_waiting_count());
    assert!(t.decrease_waiting_count());
    assert!(t.is_ready());

    let alloc = ResourceAllocation { cpus: 4, memory: 1 << 30 };
    let env = TaskEnv { handle: 77 };
    t.state = TaskState::Running(env, alloc);
    assert!(t.is_running());
    assert_eq!(t.resource_allocation(), Some(&alloc));

    t.state = TaskState::Removed;
    assert!(t.is_removed());
    assert!(!t.is_waiting());
    assert!(!t.is_running());
}

#[test]
fn readiness_edge_signals_exactly_once() {
    let mut r = TaskRef::new(msg(2, 0, 0, 0));
    let t = r.get_mut();
    t.increase_waiting_count();
    t.increase_waiting_count();
    assert!(!t.decrease_waiting_count());
    assert!(!t.is_ready());
    assert!(t.decrease_waiting_count());
    assert!(t.is_ready());
}

#[test]
fn single_dependency_signals_on_first_resolution() {
    let mut r = TaskRef::new(msg(3, 0, 0, 0));
    let t = r.get_mut();
    t.increase_waiting_count();
    assert!(!t.is_ready());
    assert!(t.decrease_waiting_count());
    assert!(t.is_ready());
}

#[test]
fn phases_are_mutually_exclusive() {
    let mut r = TaskRef::new(msg(4, 1, 2, 0));
    let t = r.get_mut();
    assert!(exactly_one_phase(t));
    t.increase_waiting_count();
    assert!(exactly_one_phase(t));
    t.state = TaskState::Running(TaskEnv { handle: 1 }, ResourceAllocation { cpus: 1, memory: 2 });
    assert!(exactly_one_phase(t));
    t.state = TaskState::Removed;
    assert!(exactly_one_phase(t));
}

#[test]
fn waiting_count_tracks_registrations() {
    let mut r = TaskRef::new(msg(5, 0, 0, 0));
    let t = r.get_mut();
    for _ in 0..5 {
        t.increase_waiting_count();
    }
    assert_eq!(t.get_waiting(), 5);
    assert!(!t.decrease_waiting_count());
    assert_eq!(t.get_waiting(), 4);
}

#[test]
fn waiting_count_reads_zero_outside_waiting() {
    let mut r = TaskRef::new(msg(6, 0, 0, 0));
    let t = r.get_mut();
    t.state = TaskState::Running(TaskEnv { handle: 9 }, ResourceAllocation { cpus: 1, memory: 1 });
    assert_eq!(t.get_waiting(), 0);
    t.state = TaskState::Removed;
    assert_eq!(t.get_waiting(), 0);
}

#[test]
fn identity_survives_counting_and_transitions() {
    let mut r = TaskRef::new(msg(8, 11, -4, 3));
    let t = r.get_mut();
    t.increase_waiting_count();
    assert!(t.decrease_waiting_count());
    t.state = TaskState::Running(TaskEnv { handle: 2 }, ResourceAllocation { cpus: 2, memory: 8 });
    t.state = TaskState::Removed;
    assert_eq!(t.id, 8);
    assert_eq!(t.priority, (11, -4));
    assert_eq!(t.instance_id, 3);
    assert_eq!(t.configuration.body, vec![1, 2, 3]);
    assert!(t.deps.is_empty());
}

#[test]
fn wrap_holds_the_given_task() {
    let task = Task {
        id: 13,
        state: TaskState::Waiting(2),
        priority: (0, 0),
        deps: vec![],
        configuration: TaskConfiguration { body: vec![] },
        instance_id: 9,
    };
    let r = TaskRef::wrap(task);
    assert_eq!(r.get().get_waiting(), 2);
    assert!(!r.get().is_ready());
    assert!(r.get().is_waiting());
}
