//! The bounded lock-free channel of `mesocarp`, as this crate uses it: a ring
//! that carries slot numbers ("tickets") from the producer side of a queue to
//! its consumer side.
//!
//! Nothing in this file is proved. Each function below hands its arguments to
//! `mesocarp` and states what that crate's source shows of the call. The ring
//! is only ever reached through an exclusive borrow, so no call can overlap
//! another.

use mesocarp::comms::mt::Broadcaster;
use mesocarp::MesoError;
use vstd::prelude::*;

verus! {

/// `mesocarp::comms::mt::Broadcaster`: a boxed slice of bounded lock-free
/// queues ("lanes"), one per subscriber.
#[verifier::external_type_specification]
#[verifier::external_body]
#[verifier::reject_recursive_types(T)]
pub struct ExBroadcaster<T: Clone>(Broadcaster<T>);

/// `mesocarp::MesoError`, the error of every `mesocarp` primitive.
#[verifier::external_type_specification]
#[verifier::external_body]
pub struct ExMesoError(MesoError);

/// What each lane of the ring holds, oldest ticket first.
pub uninterp spec fn ring_lanes(ring: Broadcaster<usize>) -> Seq<Seq<usize>>;

/// The number of tickets that one lane can hold, fixed when the ring is made.
pub uninterp spec fn ring_slots(ring: Broadcaster<usize>) -> nat;

/// `Broadcaster::new(lanes, slots)`: builds `lanes` empty queues of `slots`
/// places each. The constructor of the underlying queue panics for zero
/// places, and for a count so large that the power of two above it does not
/// fit in the queue's index; both are excluded here.
#[verifier::external_body]
pub(crate) fn ring_new(lanes: usize, slots: usize) -> (ring: Broadcaster<usize>)
    requires
        0 < slots <= usize::MAX / 2,
    ensures
        ring_lanes(ring) == Seq::new(lanes as nat, |i: int| Seq::<usize>::empty()),
        ring_slots(ring) == slots,
{
    Broadcaster::new(lanes, slots)
}

/// `Broadcaster::push` on a ring of one lane: appends the ticket to the lane
/// unless the lane is full, in which case the ring is left as it was and
/// `MesoError::BuffersFull` comes back.
#[verifier::external_body]
pub(crate) fn ring_push(ring: &mut Broadcaster<usize>, ticket: usize) -> (r: Result<(), MesoError>)
    requires
        ring_lanes(*old(ring)).len() == 1,
    ensures
        ring_slots(*final(ring)) == ring_slots(*old(ring)),
        r is Ok <==> ring_lanes(*old(ring))[0].len() < ring_slots(*old(ring)),
        r is Ok ==> ring_lanes(*final(ring)) == seq![ring_lanes(*old(ring))[0].push(ticket)],
        r is Err ==> ring_lanes(*final(ring)) == ring_lanes(*old(ring)),
{
    ring.push(ticket)
}

/// `Broadcaster::subscribe(lane)` followed by `Subscriber::pop`: removes and
/// returns the oldest ticket of that lane, or returns `None` and changes
/// nothing when the lane is empty. `subscribe` indexes the lanes and panics
/// past their end, which is excluded here.
#[verifier::external_body]
pub(crate) fn ring_pop(ring: &mut Broadcaster<usize>, lane: usize) -> (r: Option<usize>)
    requires
        lane < ring_lanes(*old(ring)).len(),
    ensures
        ring_slots(*final(ring)) == ring_slots(*old(ring)),
        match r {
            Some(ticket) => {
                &&& ring_lanes(*old(ring))[lane as int].len() > 0
                &&& ticket == ring_lanes(*old(ring))[lane as int][0]
                &&& ring_lanes(*final(ring)) == ring_lanes(*old(ring)).update(
                    lane as int,
                    ring_lanes(*old(ring))[lane as int].drop_first(),
                )
            },
            None => {
                &&& ring_lanes(*old(ring))[lane as int].len() == 0
                &&& ring_lanes(*final(ring)) == ring_lanes(*old(ring))
            },
        },
{
    ring.subscribe(lane).pop()
}

} // verus!
