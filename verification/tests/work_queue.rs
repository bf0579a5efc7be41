use nexa_vortex_core::errors::VortexError;
use nexa_vortex_core::integrations::mesocarp_wrapper::MAX_CAPACITY;
use nexa_vortex_core::integrations::VortexWorkQueue;
use nexa_vortex_core::RustVortexWorkQueue;

fn fill(queue: &mut VortexWorkQueue<usize>, count: usize, first: usize) {
    for i in 0..count {
        assert_eq!(queue.push(first + i), Ok(()));
    }
}

#[test]
fn new_rejects_zero_capacity() {
    let r = VortexWorkQueue::<u32>::new(0);
    match r {
        Err(VortexError::QueueCreation(why)) => assert_eq!(why, "capacity must be at least 1"),
        _ => panic!("a capacity of zero must be refused with QueueCreation"),
    }
}

#[test]
fn new_rejects_capacity_above_maximum() {
    let r = VortexWorkQueue::<u32>::new(MAX_CAPACITY + 1);
    match r {
        Err(VortexError::QueueCreation(why)) => {
            assert_eq!(why, "capacity exceeds the supported maximum")
        }
        _ => panic!("a capacity above the maximum must be refused with QueueCreation"),
    }
    assert!(VortexWorkQueue::<u32>::new(usize::MAX).is_err());
}

#[test]
fn new_accepts_the_bounds_of_the_range() {
    assert_eq!(MAX_CAPACITY, 1_048_576);
    let smallest = VortexWorkQueue::<u8>::new(1).unwrap();
    assert_eq!(smallest.capacity(), 1);
    let largest = VortexWorkQueue::<u8>::new(MAX_CAPACITY).unwrap();
    assert_eq!(largest.capacity(), MAX_CAPACITY);
}

#[test]
fn construction_error_is_recognised() {
    let e = VortexWorkQueue::<u32>::new(0).err().unwrap();
    assert!(e.is_construction_error());
    assert_eq!(e.message(), "Failed to create a new queue: capacity must be at least 1");
}

#[test]
fn new_queue_is_empty() {
    let mut q = VortexWorkQueue::<u32>::new(4).unwrap();
    assert_eq!(q.pop(), None);
    assert_eq!(q.pop(), None);
    assert_eq!(q.capacity(), 4);
}

#[test]
fn capacity_one_holds_exactly_one_item() {
    let mut q = VortexWorkQueue::new(1).unwrap();
    assert_eq!(q.push('a'), Ok(()));
    assert_eq!(q.push('b'), Err(VortexError::Enqueue));
    assert_eq!(q.pop(), Some('a'));
    assert_eq!(q.pop(), None);
    assert_eq!(q.push('c'), Ok(()));
    assert_eq!(q.push('d'), Err(VortexError::Enqueue));
    assert_eq!(q.pop(), Some('c'));
    assert_eq!(q.pop(), None);
}

#[test]
fn full_queue_refuses_then_one_pop_makes_room_for_one() {
    for capacity in [1usize, 2, 3, 7, 64, 1024] {
        let mut q = VortexWorkQueue::new(capacity).unwrap();
        fill(&mut q, capacity, 0);
        assert_eq!(q.push(capacity), Err(VortexError::Enqueue));
        assert_eq!(q.pop(), Some(0));
        assert_eq!(q.push(capacity + 1), Ok(()));
        assert_eq!(q.push(capacity + 2), Err(VortexError::Enqueue));
        // What was refused never entered; what was accepted comes out in order.
        for expected in 1..capacity {
            assert_eq!(q.pop(), Some(expected));
        }
        assert_eq!(q.pop(), Some(capacity + 1));
        assert_eq!(q.pop(), None);
    }
}

#[test]
fn refused_push_changes_nothing() {
    let mut q = VortexWorkQueue::new(3).unwrap();
    fill(&mut q, 3, 10);
    for late in 0..5usize {
        assert_eq!(q.push(100 + late), Err(VortexError::Enqueue));
    }
    assert_eq!(q.pop(), Some(10));
    assert_eq!(q.pop(), Some(11));
    assert_eq!(q.pop(), Some(12));
    assert_eq!(q.pop(), None);
}

#[test]
fn items_come_out_in_the_order_they_went_in() {
    let mut q = VortexWorkQueue::new(5000).unwrap();
    fill(&mut q, 5000, 0);
    for expected in 0..5000usize {
        assert_eq!(q.pop(), Some(expected));
    }
    assert_eq!(q.pop(), None);
}

#[test]
fn order_survives_many_laps_round_the_buffer() {
    let mut q = VortexWorkQueue::new(3).unwrap();
    let mut next_in = 0u32;
    let mut next_out = 0u32;
    for round in 0..200u32 {
        let burst = 1 + round % 3;
        for _ in 0..burst {
            if q.push(next_in).is_ok() {
                next_in += 1;
            }
        }
        let drain = 1 + (round / 2) % 3;
        for _ in 0..drain {
            if let Some(v) = q.pop() {
                assert_eq!(v, next_out);
                next_out += 1;
            }
        }
        assert!(next_in - next_out <= 3);
    }
    while let Some(v) = q.pop() {
        assert_eq!(v, next_out);
        next_out += 1;
    }
    assert_eq!(next_in, next_out);
    assert!(next_in > 100);
}

#[test]
fn queue_moves_payloads_that_cannot_be_cloned() {
    struct Token(String);
    let mut q = VortexWorkQueue::new(2).unwrap();
    assert!(q.push(Token(String::from("first"))).is_ok());
    assert!(q.push(Token(String::from("second"))).is_ok());
    assert!(q.push(Token(String::from("third"))).is_err());
    assert_eq!(q.pop().map(|t| t.0), Some(String::from("first")));
    assert_eq!(q.pop().map(|t| t.0), Some(String::from("second")));
    assert!(q.pop().is_none());
}

#[test]
fn remaining_items_are_dropped_with_the_queue() {
    let marker = std::rc::Rc::new(());
    {
        let mut q = VortexWorkQueue::new(4).unwrap();
        assert!(q.push(std::rc::Rc::clone(&marker)).is_ok());
        assert!(q.push(std::rc::Rc::clone(&marker)).is_ok());
        assert_eq!(std::rc::Rc::strong_count(&marker), 3);
        let popped = q.pop();
        assert!(popped.is_some());
        drop(popped);
        assert_eq!(std::rc::Rc::strong_count(&marker), 2);
    }
    assert_eq!(std::rc::Rc::strong_count(&marker), 1);
}

#[test]
fn queue_is_reachable_under_its_root_name() {
    let mut q = RustVortexWorkQueue::new(2).unwrap();
    assert_eq!(q.push(1i32), Ok(()));
    assert_eq!(q.pop(), Some(1));
}
