use car_telemetry::queue::ByteQueue;

#[test]
fn new_queue_is_empty() {
    let queue = ByteQueue::new();
    assert_eq!(queue.len(), 0);
    assert!(queue.is_empty());
    assert_eq!(queue.peek(0), None);
}

#[test]
fn bytes_leave_in_the_order_they_came() {
    let mut queue = ByteQueue::new();
    queue.push_slice(&[7]);
    queue.push_slice(&[8, 9]);
    queue.push_slice(&[]);
    queue.push_slice(&[10]);
    assert_eq!(queue.len(), 4);
    assert!(!queue.is_empty());
    assert_eq!(queue.pop_front(), Some(7));
    assert_eq!(queue.pop_front(), Some(8));
    assert_eq!(queue.pop_front(), Some(9));
    assert_eq!(queue.pop_front(), Some(10));
    assert_eq!(queue.pop_front(), None);
    assert_eq!(queue.len(), 0);
}

#[test]
fn peek_does_not_remove() {
    let mut queue = ByteQueue::new();
    queue.push_slice(&[1, 2, 3]);
    assert_eq!(queue.peek(0), Some(1));
    assert_eq!(queue.peek(1), Some(2));
    assert_eq!(queue.peek(2), Some(3));
    assert_eq!(queue.peek(3), None);
    assert_eq!(queue.peek(usize::MAX), None);
    assert_eq!(queue.len(), 3);
    assert_eq!(queue.pop_front(), Some(1));
    assert_eq!(queue.peek(0), Some(2));
}

#[test]
fn discard_removes_from_the_front() {
    let mut queue = ByteQueue::new();
    queue.push_slice(&[1, 2, 3, 4, 5]);
    assert_eq!(queue.discard(0), 0);
    assert_eq!(queue.len(), 5);
    assert_eq!(queue.discard(2), 2);
    assert_eq!(queue.len(), 3);
    assert_eq!(queue.peek(0), Some(3));
    assert_eq!(queue.discard(10), 3);
    assert!(queue.is_empty());
    assert_eq!(queue.discard(1), 0);
}
