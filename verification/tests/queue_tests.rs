use kernel_core::queue::EventQueue;

#[test]
fn fifo_within_capacity() {
    let mut q = EventQueue::with_capacity(3);
    assert!(q.try_push(10));
    assert!(q.try_push(20));
    assert!(q.try_push(30));
    assert_eq!(q.len(), 3);
    assert_eq!(q.try_pop(), Some(10));
    assert_eq!(q.try_pop(), Some(20));
    assert_eq!(q.try_pop(), Some(30));
    assert_eq!(q.try_pop(), None);
}

#[test]
fn overflow_drops_newest_without_corruption() {
    let mut q = EventQueue::with_capacity(2);
    assert!(q.try_push(1));
    assert!(q.try_push(2));
    assert!(!q.try_push(3));
    assert!(!q.try_push(4));
    assert_eq!(q.try_pop(), Some(1));
    assert_eq!(q.try_pop(), Some(2));
    assert_eq!(q.try_pop(), None);
}

#[test]
fn push_after_pop_reuses_room() {
    let mut q = EventQueue::with_capacity(1);
    assert!(q.try_push(7));
    assert!(!q.try_push(8));
    assert_eq!(q.try_pop(), Some(7));
    assert!(q.try_push(9));
    assert_eq!(q.try_pop(), Some(9));
}

#[test]
fn capacity_is_fixed() {
    let q = EventQueue::with_capacity(5);
    assert_eq!(q.capacity(), 5);
    assert_eq!(q.len(), 0);
}
