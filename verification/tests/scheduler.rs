use kernel_tasks::bridge::{EventBridge, ScancodeStream};
use kernel_tasks::executor::{deliver_scancode, Executor, READY_QUEUE_CAPACITY};
use kernel_tasks::simple_executor::SimpleExecutor;
use kernel_tasks::task::{Computation, Task};
use kernel_tasks::task_id::IdGenerator;
use kernel_tasks::waker::WakeHandle;

#[test]
fn immediate_task_completes_and_leaves_the_table() {
    let mut exec = Executor::new();
    let mut bridge = EventBridge::new(8);
    let id = exec.spawn(Computation::Immediate);
    assert!(exec.contains_task(id));
    assert_eq!(exec.task_count(), 1);
    assert_eq!(exec.ready_len(), 1);
    exec.run_ready_tasks(&mut bridge);
    assert!(!exec.contains_task(id));
    assert_eq!(exec.task_count(), 0);
    assert_eq!(exec.ready_len(), 0);
}

#[test]
fn two_tasks_one_immediate_one_event_driven() {
    let mut exec = Executor::new();
    let mut bridge = EventBridge::new(8);
    let id_a = exec.spawn(Computation::Immediate);
    let stream = ScancodeStream::new(&mut bridge);
    let id_b = exec.spawn(Computation::EventReader { stream, remaining: 1, seen: Vec::new() });
    assert_ne!(id_a, id_b);

    // First pass: A completes, B finds no event and suspends with its
    // waker registered in the bridge.
    exec.run_ready_tasks(&mut bridge);
    assert!(!exec.contains_task(id_a));
    assert!(exec.contains_task(id_b));
    assert!(bridge.has_waker());

    // One hardware event arrives: it is stored and B is woken.
    assert!(deliver_scancode(&mut exec, &mut bridge, 42));
    assert_eq!(exec.ready_len(), 1);

    // Second pass: B observes the event, completes, and is removed.
    exec.run_ready_tasks(&mut bridge);
    assert!(!exec.contains_task(id_b));
    assert_eq!(exec.task_count(), 0);
    assert_eq!(bridge.event_count(), 0);
}

#[test]
fn pending_event_reader_records_what_it_observed() {
    let mut exec = Executor::new();
    let mut bridge = EventBridge::new(8);
    let stream = ScancodeStream::new(&mut bridge);
    let id = exec.spawn(Computation::EventReader { stream, remaining: 2, seen: Vec::new() });
    exec.run_ready_tasks(&mut bridge);
    assert!(exec.contains_task(id));

    assert!(deliver_scancode(&mut exec, &mut bridge, 42));
    exec.run_ready_tasks(&mut bridge);

    // One of two events consumed: still pending, and the observation is
    // visible in the task's state.
    assert!(exec.contains_task(id));
    let seen = exec.events_seen(id).expect("an event reader records its events");
    assert_eq!(seen, &vec![42u64]);

    assert!(deliver_scancode(&mut exec, &mut bridge, 43));
    exec.run_ready_tasks(&mut bridge);
    assert!(!exec.contains_task(id));
}

#[test]
fn duplicate_wake_of_a_pending_task_is_harmless() {
    let mut exec = Executor::new();
    let mut bridge = EventBridge::new(8);
    let stream = ScancodeStream::new(&mut bridge);
    let id = exec.spawn(Computation::EventReader { stream, remaining: 1, seen: Vec::new() });
    exec.run_ready_tasks(&mut bridge);
    assert!(exec.contains_task(id));

    // Two wakes in a row before the scheduler drains the queue.
    exec.wake(WakeHandle::new(id));
    exec.wake(WakeHandle::new(id));
    assert_eq!(exec.ready_len(), 2);

    // Draining polls the still-pending task and leaves it in place; it is
    // neither removed twice nor polled after completion.
    exec.run_ready_tasks(&mut bridge);
    assert!(exec.contains_task(id));
    assert_eq!(exec.task_count(), 1);
    assert_eq!(exec.ready_len(), 0);
}

#[test]
fn duplicate_wake_after_completion_is_a_silent_no_op() {
    let mut exec = Executor::new();
    let mut bridge = EventBridge::new(8);
    let stream = ScancodeStream::new(&mut bridge);
    let id = exec.spawn(Computation::EventReader { stream, remaining: 1, seen: Vec::new() });
    exec.run_ready_tasks(&mut bridge);

    // The event arrives, and the task is woken twice: once by the
    // delivery, once more spuriously.
    assert!(deliver_scancode(&mut exec, &mut bridge, 7));
    exec.wake(WakeHandle::new(id));
    assert_eq!(exec.ready_len(), 2);

    // The first queue entry completes the task and removes it; the second
    // finds no table entry and is skipped.
    exec.run_ready_tasks(&mut bridge);
    assert!(!exec.contains_task(id));
    assert_eq!(exec.task_count(), 0);
    assert_eq!(exec.ready_len(), 0);
}

#[test]
fn sleep_is_refused_when_a_wake_arrived_before_the_halt() {
    let mut exec = Executor::new();
    let mut bridge = EventBridge::new(8);
    let stream = ScancodeStream::new(&mut bridge);
    let id = exec.spawn(Computation::EventReader { stream, remaining: 1, seen: Vec::new() });
    exec.run_ready_tasks(&mut bridge);

    // The ready queue was observed empty by the pass above; a wake lands
    // in the window before the idle check. The idle protocol re-checks
    // and must not halt.
    exec.wake(WakeHandle::new(id));
    assert!(!exec.sleep_if_idle());

    // The next pass processes the entry the wake enqueued.
    exec.run_ready_tasks(&mut bridge);
    assert_eq!(exec.ready_len(), 0);
}

#[test]
fn ready_queue_has_the_configured_capacity() {
    let mut exec = Executor::new();
    assert_eq!(exec.ready_capacity(), READY_QUEUE_CAPACITY);
    assert_eq!(exec.ready_len(), 0);
    // Wakes fill the ready queue up to its capacity; the unverified
    // boundary must treat a wake against a full queue as fatal.
    for k in 0..READY_QUEUE_CAPACITY {
        exec.wake(WakeHandle::new(kernel_tasks::task_id::TaskId(k as u64)));
    }
    assert_eq!(exec.ready_len(), READY_QUEUE_CAPACITY);
}

#[test]
fn stale_identities_in_the_ready_queue_are_skipped() {
    let mut exec = Executor::new();
    let mut bridge = EventBridge::new(8);
    exec.wake(WakeHandle::new(kernel_tasks::task_id::TaskId(999)));
    exec.run_ready_tasks(&mut bridge);
    assert_eq!(exec.ready_len(), 0);
    assert_eq!(exec.task_count(), 0);
}

#[test]
fn countdown_completes_after_its_budget_of_polls() {
    let mut exec = Executor::new();
    let mut bridge = EventBridge::new(8);
    let id = exec.spawn(Computation::Countdown { remaining: 2 });

    // Each pass polls once; a countdown suspends without arranging a
    // wake, so it is re-entered only when woken explicitly.
    exec.run_ready_tasks(&mut bridge);
    assert!(exec.contains_task(id));
    exec.wake(WakeHandle::new(id));
    exec.run_ready_tasks(&mut bridge);
    assert!(exec.contains_task(id));
    exec.wake(WakeHandle::new(id));
    exec.run_ready_tasks(&mut bridge);
    assert!(!exec.contains_task(id));
}

#[test]
fn simple_executor_busy_polls_everything_to_completion() {
    let mut gen = IdGenerator::new();
    let mut simple = SimpleExecutor::new();
    let mut bridge = EventBridge::new(8);
    simple.spawn(Task::new(&mut gen, Computation::Immediate));
    simple.spawn(Task::new(&mut gen, Computation::Countdown { remaining: 3 }));
    simple.spawn(Task::new(&mut gen, Computation::Immediate));
    assert_eq!(simple.task_count(), 3);
    simple.run(&mut bridge);
    assert_eq!(simple.task_count(), 0);
    assert_eq!(bridge.event_count(), 0);
}
