use video_pipeline::queue::{BoundedQueue, PopOutcome, PushOutcome};
use video_pipeline::stages::Packet;

#[test]
fn backpressure_full_queue_refuses_without_dropping() {
    // Fill a queue of the packet-queue capacity, then keep offering: every
    // extra offer is refused with the same packet handed back, and the
    // queued packets are all still there, in order.
    let mut q: BoundedQueue<Packet> = BoundedQueue::new(10);
    for i in 0..10 {
        match q.push(Packet { stream_index: i }) {
            PushOutcome::Accepted => {}
            _ => panic!("queue refused an in-capacity push"),
        }
    }
    for _attempt in 0..3 {
        match q.push(Packet { stream_index: 99 }) {
            PushOutcome::Full(back) => assert_eq!(back.stream_index, 99),
            _ => panic!("full queue must refuse"),
        }
    }
    assert_eq!(q.len(), 10);
    for i in 0..10 {
        match q.pop() {
            PopOutcome::Item(p) => assert_eq!(p.stream_index, i),
            _ => panic!("queued packet missing"),
        }
    }
    match q.pop() {
        PopOutcome::Empty => {}
        _ => panic!("drained open queue must report empty"),
    }
}

#[test]
fn fifo_order_is_kept() {
    let mut q: BoundedQueue<u32> = BoundedQueue::new(4);
    assert!(matches!(q.push(1), PushOutcome::Accepted));
    assert!(matches!(q.push(2), PushOutcome::Accepted));
    assert!(matches!(q.pop(), PopOutcome::Item(1)));
    assert!(matches!(q.push(3), PushOutcome::Accepted));
    assert!(matches!(q.pop(), PopOutcome::Item(2)));
    assert!(matches!(q.pop(), PopOutcome::Item(3)));
}

#[test]
fn single_slot_frame_queue_blocks_second_producer_push() {
    // The frame queues have exactly one slot: a second push while the
    // previous value is unconsumed is refused until the consumer takes it.
    let mut q: BoundedQueue<u32> = BoundedQueue::new(1);
    assert!(matches!(q.push(7), PushOutcome::Accepted));
    assert!(matches!(q.push(8), PushOutcome::Full(8)));
    assert!(matches!(q.pop(), PopOutcome::Item(7)));
    assert!(matches!(q.push(8), PushOutcome::Accepted));
}

#[test]
fn closed_queue_drains_then_disconnects() {
    let mut q: BoundedQueue<u32> = BoundedQueue::new(4);
    assert!(matches!(q.push(1), PushOutcome::Accepted));
    assert!(matches!(q.push(2), PushOutcome::Accepted));
    q.close();
    assert!(q.closed());
    // No further item is accepted; the refused item comes back.
    assert!(matches!(q.push(3), PushOutcome::Closed(3)));
    // What was queued is still drainable, in order.
    assert!(matches!(q.pop(), PopOutcome::Item(1)));
    assert!(matches!(q.pop(), PopOutcome::Item(2)));
    // Then the consumer observes the closure, now and forever.
    assert!(matches!(q.pop(), PopOutcome::Disconnected));
    assert!(matches!(q.pop(), PopOutcome::Disconnected));
}

#[test]
fn close_is_idempotent() {
    let mut q: BoundedQueue<u32> = BoundedQueue::new(2);
    q.close();
    q.close();
    assert!(q.closed());
    assert!(matches!(q.pop(), PopOutcome::Disconnected));
}
