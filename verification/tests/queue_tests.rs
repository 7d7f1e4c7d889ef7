use vcb_audio::queue::SampleQueue;

#[test]
fn fifo_order_preserved() {
    let mut q = SampleQueue::new(10);
    assert!(q.enqueue(1));
    assert!(q.enqueue(2));
    assert!(q.enqueue(3));
    assert_eq!(q.dequeue(), Some(1));
    assert_eq!(q.dequeue(), Some(2));
    assert_eq!(q.dequeue(), Some(3));
    assert_eq!(q.dequeue(), None);
}

#[test]
fn dequeue_on_empty_returns_none() {
    let mut q = SampleQueue::new(4);
    assert_eq!(q.dequeue(), None);
    assert!(q.is_empty());
}

#[test]
fn full_queue_refuses_without_loss() {
    let mut q = SampleQueue::new(2);
    assert!(q.enqueue(10));
    assert!(q.enqueue(20));
    assert!(!q.enqueue(30));
    assert_eq!(q.len(), 2);
    assert_eq!(q.dequeue(), Some(10));
    assert!(q.enqueue(30));
    assert_eq!(q.dequeue(), Some(20));
    assert_eq!(q.dequeue(), Some(30));
    assert_eq!(q.dequeue(), None);
}

#[test]
fn drain_returns_all_in_order() {
    let mut q = SampleQueue::new(8);
    let samples = [5i16, -5, 0, i16::MAX, i16::MIN];
    for &s in samples.iter() {
        assert!(q.enqueue(s));
    }
    assert_eq!(q.drain_remaining(), samples.to_vec());
    assert!(q.is_empty());
    assert_eq!(q.capacity(), 8);
}

#[test]
fn len_and_capacity_report_state() {
    let mut q = SampleQueue::new(3);
    assert_eq!(q.capacity(), 3);
    assert_eq!(q.len(), 0);
    assert!(q.enqueue(7));
    assert_eq!(q.len(), 1);
    assert!(!q.is_empty());
}
