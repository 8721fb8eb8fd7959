use kernel::hid::queue::Queue;

#[test]
fn round_trip_in_fifo_order() {
    let mut q: Queue<u32> = Queue::new(4);
    for x in [10u32, 20, 30] {
        assert!(q.enqueue(&x).is_ok());
    }
    assert_eq!(q.dequeue(), Some(10));
    assert_eq!(q.dequeue(), Some(20));
    assert_eq!(q.dequeue(), Some(30));
    assert_eq!(q.dequeue(), None);
}

#[test]
fn full_round_trip() {
    let mut q: Queue<u8> = Queue::new(3);
    for x in 1..=3u8 {
        assert_eq!(q.enqueue(&x), Ok(()));
    }
    assert_eq!(q.len(), 3);
    for x in 1..=3u8 {
        assert_eq!(q.dequeue(), Some(x));
    }
    assert_eq!(q.dequeue(), None);
}

#[test]
fn overflow_rejects_and_keeps_the_rest() {
    let mut q: Queue<u8> = Queue::new(3);
    for x in 1..=3u8 {
        assert!(q.enqueue(&x).is_ok());
    }
    assert_eq!(q.enqueue(&4), Err("Queue overflow"));
    assert_eq!(q.len(), 3);
    assert_eq!(q.dequeue(), Some(1));
    assert_eq!(q.dequeue(), Some(2));
    assert_eq!(q.dequeue(), Some(3));
    assert_eq!(q.dequeue(), None);
}

#[test]
fn empty_queue_dequeues_nothing() {
    let mut q: Queue<i64> = Queue::new(2);
    assert_eq!(q.dequeue(), None);
    assert_eq!(q.len(), 0);
}

#[test]
fn zero_capacity_holds_nothing() {
    let mut q: Queue<u8> = Queue::new(0);
    assert_eq!(q.capacity(), 0);
    assert!(q.enqueue(&1).is_err());
    assert_eq!(q.dequeue(), None);
}

#[test]
fn slots_are_reused_around_the_ring() {
    let mut q: Queue<u16> = Queue::new(3);
    let mut next_in = 0u16;
    let mut next_out = 0u16;
    for _ in 0..10 {
        assert!(q.enqueue(&next_in).is_ok());
        next_in += 1;
        assert!(q.enqueue(&next_in).is_ok());
        next_in += 1;
        assert_eq!(q.dequeue(), Some(next_out));
        next_out += 1;
        assert_eq!(q.dequeue(), Some(next_out));
        next_out += 1;
    }
    assert_eq!(q.capacity(), 3);
    assert_eq!(q.dequeue(), None);
}
