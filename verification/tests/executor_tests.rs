use kernel_core::executor::SimpleExecutor;

#[test]
fn fifo_readiness_order() {
    let mut exec = SimpleExecutor::new();
    let a = exec.spawn();
    let b = exec.spawn();
    // Task A runs first (spawned first), and suspends once.
    assert_eq!(exec.next_ready(), Some(a));
    exec.suspend_current();
    // Task B, ready since before A's wake, runs to completion before A's
    // second resumption.
    assert_eq!(exec.next_ready(), Some(b));
    exec.complete_current();
    assert!(!exec.all_completed());
    // A's awaited condition becomes true: it is woken and resumed.
    exec.wake(a);
    assert_eq!(exec.next_ready(), Some(a));
    exec.complete_current();
    assert!(exec.all_completed());
    assert_eq!(exec.next_ready(), None);
}

#[test]
fn wake_woken_after_b_runs_after_b() {
    let mut exec = SimpleExecutor::new();
    let a = exec.spawn();
    assert_eq!(exec.next_ready(), Some(a));
    exec.suspend_current();
    // A is woken before B is spawned: A became ready first, so FIFO order
    // resumes A first.
    exec.wake(a);
    let b = exec.spawn();
    assert_eq!(exec.next_ready(), Some(a));
    exec.complete_current();
    assert_eq!(exec.next_ready(), Some(b));
    exec.complete_current();
    assert!(exec.all_completed());
}

#[test]
fn wake_is_noop_unless_suspended() {
    let mut exec = SimpleExecutor::new();
    let a = exec.spawn();
    // Waking a task that is already ready changes nothing.
    exec.wake(a);
    assert_eq!(exec.next_ready(), Some(a));
    exec.suspend_current();
    assert_eq!(exec.next_ready(), None);
    // Waking an id that was never spawned is a no-op.
    exec.wake(99);
    assert_eq!(exec.next_ready(), None);
    exec.wake(a);
    assert_eq!(exec.next_ready(), Some(a));
    exec.complete_current();
    // Waking a completed task is a no-op too.
    exec.wake(a);
    assert_eq!(exec.next_ready(), None);
    assert_eq!(exec.task_count(), 1);
}
