//! The bounded ring storage: a fixed-capacity circular buffer with a
//! non-blocking push from exactly one producer and a non-blocking pop from
//! exactly one consumer, usable concurrently without a lock between the two.
//!
//! The buffer is `ringbuf`'s heap-allocated SPSC ring. Its `Producer` and
//! `Consumer` structs carry bounds on that crate's own `RbRef` and `RbWrite`
//! traits, which cannot be declared here, so each half is held in a field
//! hidden from verification. Because the two halves share one buffer that
//! either side may mutate concurrently, no contract below speaks of the
//! buffer's contents: a contents model of either half alone would be false
//! the moment the other half runs. Two facts survive the concurrency and are
//! modeled as ghost state on the producer: the capacity the ring was built
//! with (never resized), and the total number of messages this producer has
//! pushed. Pops only ever free space, so a producer that has pushed fewer
//! than `capacity` messages in total cannot find the ring full, whatever the
//! consumer does in between.

use vstd::prelude::*;

use ringbuf::Consumer;
use ringbuf::HeapRb;
use ringbuf::Producer;
use ringbuf::SharedRb;
use std::mem::MaybeUninit;
use std::sync::Arc;

verus! {

/// The hidden producer half of one heap-allocated SPSC ring.
#[verifier::external_body]
#[verifier::reject_recursive_types(T)]
struct ProducerInner<T> {
    inner: Producer<T, Arc<SharedRb<T, Vec<MaybeUninit<T>>>>>,
}

/// The consumer half of one heap-allocated SPSC ring.
#[verifier::external_body]
#[verifier::reject_recursive_types(T)]
pub struct RingConsumer<T> {
    inner: Consumer<T, Arc<SharedRb<T, Vec<MaybeUninit<T>>>>>,
}

/// The producer half of one heap-allocated SPSC ring, with the ghost model
/// that stays sound per handle while the consumer pops concurrently: the
/// ring's fixed capacity and the total count of messages pushed through this
/// producer. Both ghost fields are written only by `ring_split`, which
/// records the capacity beside the very call that builds the ring, and by
/// the trusted `ring_push`.
#[verifier::reject_recursive_types(T)]
pub struct RingProducer<T> {
    half: ProducerInner<T>,
    cap: Ghost<nat>,
    count: Ghost<nat>,
}

impl<T> RingProducer<T> {
    /// The fixed capacity the ring was created with; never resized.
    pub closed spec fn capacity(&self) -> nat {
        self.cap@
    }

    /// How many messages have been pushed into the ring through this
    /// producer in total, over the whole lifetime of the ring.
    pub closed spec fn pushed(&self) -> nat {
        self.count@
    }
}

/// Relies on `HeapRb::new` and `SharedRb::split`: a fresh ring that holds up
/// to `capacity` messages, and its two halves. `HeapRb::new` panics on
/// capacity zero, which the precondition rules out.
#[verifier::external_body]
fn raw_split<T>(capacity: usize) -> (halves: (ProducerInner<T>, RingConsumer<T>))
    requires
        capacity >= 1,
{
    let (producer, consumer) = HeapRb::<T>::new(capacity).split();
    (ProducerInner { inner: producer }, RingConsumer { inner: consumer })
}

/// Builds the two halves of a fresh ring and records the producer's ghost
/// model: the capacity handed to the ring's constructor, and a push count of
/// zero, since nothing has entered the fresh ring yet.
pub(crate) fn ring_split<T>(capacity: usize) -> (halves: (RingProducer<T>, RingConsumer<T>))
    requires
        capacity >= 1,
    ensures
        halves.0.capacity() == capacity,
        halves.0.pushed() == 0,
{
    let (producer, consumer) = raw_split(capacity);
    let ring_producer = RingProducer {
        half: producer,
        cap: Ghost(capacity as nat),
        count: Ghost(0nat),
    };
    (ring_producer, consumer)
}

/// Relies on `Producer::push`: moves the message into the ring and reports
/// `Ok`, or, when the ring is at capacity, hands the very same message back
/// inside `Err` — no message is lost or altered either way. The success
/// promise is sound even under a concurrent consumer: the ring is full only
/// when it holds `capacity` messages, it can never hold more than this
/// producer has pushed in total, and pops only ever free space — so fewer
/// than `capacity` pushes so far rule out `Err`, whatever the consumer did
/// in between.
#[verifier::external_body]
pub(crate) fn ring_push<T>(producer: &mut RingProducer<T>, message: T) -> (pushed: Result<(), T>)
    ensures
        pushed matches Err(m) ==> m == message,
        final(producer).capacity() == old(producer).capacity(),
        pushed is Ok ==> final(producer).pushed() == old(producer).pushed() + 1,
        pushed is Err ==> final(producer).pushed() == old(producer).pushed(),
        old(producer).pushed() < old(producer).capacity() ==> pushed is Ok,
{
    producer.half.inner.push(message)
}

/// Relies on `Consumer::pop`: removes and returns the oldest message in the
/// ring, or `None` when the ring is empty at the moment of the call.
#[verifier::external_body]
pub(crate) fn ring_pop<T>(consumer: &mut RingConsumer<T>) -> (popped: Option<T>) {
    consumer.inner.pop()
}

} // verus!
