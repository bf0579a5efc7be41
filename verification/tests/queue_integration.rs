use nexa_vortex_core::integrations::VortexWorkQueue;

#[test]
fn test_spsc_queue_integrity() {
    let mut q = VortexWorkQueue::new(1024).unwrap();
    let item_count = 5000;

    // The producer and the consumer take turns on the queue. The producer
    // offers items until one is refused; the consumer then takes a share of
    // what is buffered, so that the buffer wraps round many times.
    let mut next_to_push = 0;
    let mut seen_count = 0;
    let mut next_expected = 0;
    let mut turn = 0;
    while seen_count < item_count {
        while next_to_push < item_count && q.push(next_to_push).is_ok() {
            next_to_push += 1;
        }
        turn += 1;
        let share = 1 + (turn * 37) % 700;
        for _ in 0..share {
            if let Some(v) = q.pop() {
                assert_eq!(v, next_expected, "Items should be received in order");
                next_expected += 1;
                seen_count += 1;
            }
        }
    }
    assert_eq!(seen_count, item_count);
    assert_eq!(q.pop(), None);
}
