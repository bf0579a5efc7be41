//! The bounded single-producer/single-consumer work queue.
//!
//! A queue owns `capacity` payload slots and a lock-free ring of `mesocarp`
//! that carries slot numbers. `push` asks the ring to accept the number of the
//! next free slot; the ring refuses when it is full, and that refusal is the
//! queue's back-pressure signal. `pop` asks the ring for the oldest slot number
//! and empties that slot. The ring clones what it is handed and therefore
//! wants `Clone` of its items; by sending slot numbers through it the queue
//! can hold payloads of any type, and never copies one.
//!
//! `push` and `pop` take `&mut self`: the contracts below describe a queue
//! that one caller at a time has to itself. A producer and a consumer on
//! different threads share a queue by taking turns on it (for instance behind
//! a mutex); used that way the capacity is enforced and the order is kept.

use crate::errors::VortexError;
use crate::integrations::ticket_ring::{ring_lanes, ring_new, ring_pop, ring_push, ring_slots};
use mesocarp::comms::mt::Broadcaster;
use vstd::prelude::*;
use vstd::string::*;

verus! {

/// The largest capacity that a queue can be built with.
pub const MAX_CAPACITY: usize = 1_048_576;

/// Whether a queue holding `contents` has room for one more item.
pub open spec fn accepts<T>(contents: Seq<T>, capacity: nat) -> bool {
    contents.len() < capacity
}

/// What a queue holds after `push(item)`: the item is appended when there is
/// room, and nothing changes when there is none.
pub open spec fn after_push<T>(contents: Seq<T>, capacity: nat, item: T) -> Seq<T> {
    if accepts(contents, capacity) {
        contents.push(item)
    } else {
        contents
    }
}

/// What `pop` returns: the oldest item, if there is one.
pub open spec fn front<T>(contents: Seq<T>) -> Option<T> {
    if contents.len() > 0 {
        Some(contents[0])
    } else {
        None
    }
}

/// What a queue holds after `pop`.
pub open spec fn after_pop<T>(contents: Seq<T>) -> Seq<T> {
    if contents.len() > 0 {
        contents.drop_first()
    } else {
        contents
    }
}

/// Why `VortexWorkQueue::new` refuses a capacity, if it does.
pub open spec fn capacity_refusal(capacity: usize) -> Option<Seq<char>> {
    if capacity == 0 {
        Some("capacity must be at least 1"@)
    } else if capacity > MAX_CAPACITY {
        Some("capacity exceeds the supported maximum"@)
    } else {
        None
    }
}

/// The slot that holds the `i`-th oldest of `len` buffered items, when the
/// next slot to write is `tail` and there are `capacity` slots in all.
spec fn slot_of(tail: int, capacity: int, len: int, i: int) -> int {
    let unwrapped = tail + capacity - len + i;
    if unwrapped >= capacity {
        unwrapped - capacity
    } else {
        unwrapped
    }
}

/// A fixed-capacity first-in-first-out queue.
pub struct VortexWorkQueue<T> {
    capacity: usize,
    slots: Vec<Option<T>>,
    tail: usize,
    ring: Broadcaster<usize>,
}

impl<T> View for VortexWorkQueue<T> {
    type V = Seq<T>;

    /// The buffered items, oldest first.
    closed spec fn view(&self) -> Seq<T> {
        Seq::new(self.tickets().len(), |i: int| self.slots@[self.tickets()[i] as int].unwrap())
    }
}

impl<T> VortexWorkQueue<T> {
    /// The slot numbers in flight, oldest first.
    spec fn tickets(&self) -> Seq<usize> {
        ring_lanes(self.ring)[0]
    }

    /// The capacity that the queue was built with.
    pub closed spec fn spec_capacity(&self) -> nat {
        self.capacity as nat
    }

    /// The queue's invariant: the ring holds the numbers of exactly the
    /// occupied slots, in the order in which they were filled.
    pub closed spec fn wf(&self) -> bool {
        &&& 0 < self.capacity <= MAX_CAPACITY
        &&& self.slots@.len() == self.capacity
        &&& self.tail < self.capacity
        &&& ring_lanes(self.ring).len() == 1
        &&& ring_slots(self.ring) == self.capacity
        &&& self.tickets().len() <= self.capacity
        &&& forall|i: int|
            0 <= i < self.tickets().len() ==> #[trigger] self.tickets()[i] == slot_of(
                self.tail as int,
                self.capacity as int,
                self.tickets().len() as int,
                i,
            )
        &&& forall|i: int|
            0 <= i < self.tickets().len() ==> (#[trigger] self.slots@[self.tickets()[i] as int]) is Some
    }

    /// A queue never holds more items than its capacity, and its capacity is
    /// within the supported range.
    pub proof fn law_never_exceeds_capacity(&self)
        requires
            self.wf(),
        ensures
            self@.len() <= self.spec_capacity(),
            0 < self.spec_capacity() <= MAX_CAPACITY,
    {
    }

    /// Builds an empty queue of the given capacity. Fails for a capacity of
    /// zero and for one above `MAX_CAPACITY`.
    pub fn new(capacity: usize) -> (r: Result<Self, VortexError>)
        ensures
            match r {
                Ok(queue) => {
                    &&& capacity_refusal(capacity) is None
                    &&& queue.wf()
                    &&& queue.spec_capacity() == capacity
                    &&& queue@ == Seq::<T>::empty()
                },
                Err(e) => e matches VortexError::QueueCreation(why) && capacity_refusal(capacity)
                    == Some(why@),
            },
    {
        if capacity == 0 {
            return Err(VortexError::QueueCreation(String::from_str("capacity must be at least 1")));
        }
        if capacity > MAX_CAPACITY {
            return Err(
                VortexError::QueueCreation(
                    String::from_str("capacity exceeds the supported maximum"),
                ),
            );
        }
        let mut slots: Vec<Option<T>> = Vec::with_capacity(capacity);
        let mut filled: usize = 0;
        while filled < capacity
            invariant
                filled <= capacity,
                slots@.len() == filled,
            decreases capacity - filled,
        {
            slots.push(None);
            filled += 1;
        }
        let ring = ring_new(1, capacity);
        let queue = VortexWorkQueue { capacity, slots, tail: 0, ring };
        assert(queue@ =~= Seq::<T>::empty());
        Ok(queue)
    }

    /// The capacity that the queue was built with.
    pub fn capacity(&self) -> (r: usize)
        ensures
            r == self.spec_capacity(),
    {
        self.capacity
    }

    /// Appends `item` if there is room. When the queue is full the item is
    /// not accepted, nothing changes, and `VortexError::Enqueue` is returned.
    /// Never blocks.
    pub fn push(&mut self, item: T) -> (r: Result<(), VortexError>)
        requires
            old(self).wf(),
        ensures
            final(self).wf(),
            final(self).spec_capacity() == old(self).spec_capacity(),
            final(self)@ == after_push(old(self)@, old(self).spec_capacity(), item),
            r is Ok <==> accepts(old(self)@, old(self).spec_capacity()),
            r is Err ==> r == Err::<(), VortexError>(VortexError::Enqueue),
    {
        let ticket = self.tail;
        match ring_push(&mut self.ring, ticket) {
            Err(_) => Err(VortexError::Enqueue),
            Ok(()) => {
                self.slots.set(ticket, Some(item));
                self.tail = if ticket + 1 == self.capacity {
                    0
                } else {
                    ticket + 1
                };
                assert(self@ =~= old(self)@.push(item));
                Ok(())
            },
        }
    }

    /// Removes and returns the oldest item, or returns `None` when the queue
    /// is empty. Never blocks.
    pub fn pop(&mut self) -> (r: Option<T>)
        requires
            old(self).wf(),
        ensures
            final(self).wf(),
            final(self).spec_capacity() == old(self).spec_capacity(),
            r == front(old(self)@),
            final(self)@ == after_pop(old(self)@),
    {
        match ring_pop(&mut self.ring, 0) {
            None => None,
            Some(ticket) => {
                let mut taken: Option<T> = None;
                std::mem::swap(&mut taken, &mut self.slots[ticket]);
                assert(self@ =~= old(self)@.drop_first());
                taken
            },
        }
    }
}

/// One call on a queue: a `push` of an item, or a `pop`.
pub ghost enum QueueOp<T> {
    Push(T),
    Pop,
}

/// A queue together with the record of what has gone through it.
pub ghost struct QueueRun<T> {
    /// What the queue holds now, oldest first.
    pub contents: Seq<T>,
    /// Every item that a `push` accepted, in the order of the calls.
    pub accepted: Seq<T>,
    /// Every item that a `pop` returned, in the order of the calls.
    pub popped: Seq<T>,
}

/// The run after one more call.
pub open spec fn run_step<T>(run: QueueRun<T>, capacity: nat, op: QueueOp<T>) -> QueueRun<T> {
    match op {
        QueueOp::Push(item) => QueueRun {
            contents: after_push(run.contents, capacity, item),
            accepted: if accepts(run.contents, capacity) {
                run.accepted.push(item)
            } else {
                run.accepted
            },
            popped: run.popped,
        },
        QueueOp::Pop => QueueRun {
            contents: after_pop(run.contents),
            accepted: run.accepted,
            popped: match front(run.contents) {
                Some(item) => run.popped.push(item),
                None => run.popped,
            },
        },
    }
}

/// The run of a new queue of the given capacity through `ops`, first to last.
pub open spec fn run_of<T>(capacity: nat, ops: Seq<QueueOp<T>>) -> QueueRun<T>
    decreases ops.len(),
{
    if ops.len() == 0 {
        QueueRun { contents: Seq::empty(), accepted: Seq::empty(), popped: Seq::empty() }
    } else {
        run_step(run_of(capacity, ops.drop_last()), capacity, ops.last())
    }
}

/// What a queue holds after `items` have been pushed one by one.
pub open spec fn after_pushes<T>(contents: Seq<T>, capacity: nat, items: Seq<T>) -> Seq<T>
    decreases items.len(),
{
    if items.len() == 0 {
        contents
    } else {
        after_push(after_pushes(contents, capacity, items.drop_last()), capacity, items.last())
    }
}

/// Pushing into an empty queue no more items than it has room for accepts
/// every one of them, in order.
pub proof fn lemma_pushes_within_capacity<T>(capacity: nat, items: Seq<T>)
    requires
        items.len() <= capacity,
    ensures
        after_pushes(Seq::<T>::empty(), capacity, items) == items,
    decreases items.len(),
{
    if items.len() > 0 {
        lemma_pushes_within_capacity(capacity, items.drop_last());
        assert(items.drop_last().push(items.last()) =~= items);
    }
}

/// Capacity: a new queue of capacity `C` accepts `C` pushes in a row, each
/// of them; it refuses the next one and is left unchanged by it; and after one
/// `pop` it accepts exactly one more push before it refuses again.
pub proof fn law_capacity_is_enforced<T>(capacity: nat, items: Seq<T>, late: T, next: T, last: T)
    requires
        capacity > 0,
        items.len() == capacity,
    ensures
        forall|k: int|
            0 <= k < capacity ==> accepts(
                #[trigger] after_pushes(Seq::<T>::empty(), capacity, items.take(k)),
                capacity,
            ),
        after_pushes(Seq::<T>::empty(), capacity, items) == items,
        !accepts(items, capacity),
        after_push(items, capacity, late) == items,
        front(items) == Some(items[0]),
        accepts(after_pop(items), capacity),
        !accepts(after_push(after_pop(items), capacity, next), capacity),
        after_push(after_push(after_pop(items), capacity, next), capacity, last)
            == items.drop_first().push(next),
{
    assert forall|k: int| 0 <= k < capacity implies accepts(
        #[trigger] after_pushes(Seq::<T>::empty(), capacity, items.take(k)),
        capacity,
    ) by {
        lemma_pushes_within_capacity(capacity, items.take(k));
    }
    lemma_pushes_within_capacity(capacity, items);
}

/// First in, first out: whatever calls are made on a new queue, the items
/// popped so far followed by the items still buffered are exactly the items
/// accepted so far, in the order in which they were accepted. So the consumer
/// sees the accepted items in order, each once and with none left out: what
/// it has popped is the beginning of what was accepted. And the queue never
/// holds more than its capacity.
pub proof fn law_fifo<T>(capacity: nat, ops: Seq<QueueOp<T>>)
    ensures
        run_of(capacity, ops).popped + run_of(capacity, ops).contents == run_of(
            capacity,
            ops,
        ).accepted,
        run_of(capacity, ops).popped == run_of(capacity, ops).accepted.take(
            run_of(capacity, ops).popped.len() as int,
        ),
        run_of(capacity, ops).contents.len() <= capacity,
    decreases ops.len(),
{
    if ops.len() > 0 {
        let before = run_of(capacity, ops.drop_last());
        let after = run_of(capacity, ops);
        law_fifo(capacity, ops.drop_last());
        assert(after == run_step(before, capacity, ops.last()));
        assert(after.popped + after.contents =~= after.accepted);
    } else {
        assert(Seq::<T>::empty() + Seq::<T>::empty() =~= Seq::<T>::empty());
    }
    let run = run_of(capacity, ops);
    assert(run.popped =~= (run.popped + run.contents).take(run.popped.len() as int));
}

} // verus!
