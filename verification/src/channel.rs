//! The two halves of the channel: a sender and a receiver bound to one ring
//! and one shared close flag. Neither operation ever blocks; dropping either
//! half sets the flag, which the other half observes on its next operation.

use vstd::prelude::*;

use crate::adapter::MicroBlockingSender;
use crate::flag::CloseFlag;
use crate::results::RecvResult;
use crate::results::SendResult;
use crate::ring::RingConsumer;
use crate::ring::RingProducer;
use crate::ring::ring_pop;
use crate::ring::ring_push;
use crate::ring::ring_split;

verus! {

/// A SPSC sender guaranteed to never block when sending a message. This is a
/// strong constraint, enforced for instance on a main UI or render thread, so
/// it should only be preferred over other channels where non-blocking
/// behaviour is required.
///
/// Cannot be cloned; for multiple producers, convert it with
/// [`NonBlockingSender::mpsc`] into a sender that may block very briefly.
#[verifier::reject_recursive_types(T)]
pub struct NonBlockingSender<T> {
    pub(crate) inner: RingProducer<T>,
    pub(crate) is_closed: CloseFlag,
}

impl<T> NonBlockingSender<T> {
    /// Whether this handle has already observed the channel as closed. Once
    /// true, every later operation on this handle reports `Disconnected`.
    pub closed spec fn closed_seen(&self) -> bool {
        self.is_closed.seen_closed()
    }

    /// The fixed capacity of the channel's ring; never resized.
    pub closed spec fn capacity(&self) -> nat {
        self.inner.capacity()
    }

    /// How many messages this sender has pushed into the ring in total.
    pub closed spec fn pushed(&self) -> nat {
        self.inner.pushed()
    }

    /// Tries to send a message to the receiving channel without ever
    /// blocking, even briefly.
    ///
    /// # Result
    ///
    /// `Full` hands the very message back when the ring is at capacity, and
    /// can only happen once this sender has pushed at least `capacity`
    /// messages in total — in particular, the first `capacity` sends of an
    /// open channel are never rejected as full. `Disconnected` reports that
    /// the close flag was read as set, in which case the attempt never
    /// reached storage.
    pub fn try_send(&mut self, message: T) -> (r: SendResult<T>)
        ensures
            old(self).closed_seen() ==> r is Disconnected,
            r is Disconnected <==> final(self).closed_seen(),
            r matches SendResult::Full(m) ==> m == message,
            final(self).capacity() == old(self).capacity(),
            r is Sent ==> final(self).pushed() == old(self).pushed() + 1,
            !(r is Sent) ==> final(self).pushed() == old(self).pushed(),
            old(self).pushed() < old(self).capacity() ==> !(r is Full),
            r is Full ==> old(self).pushed() >= old(self).capacity(),
    {
        if self.is_closed.check_closed() {
            SendResult::Disconnected
        } else {
            SendResult::of_push(ring_push(&mut self.inner, message))
        }
    }

    /// Makes this channel into a `mpsc` channel, but where the sender is
    /// allowed to block for very small durations. The sender is consumed by
    /// the move, not dropped, so the conversion runs no close cascade: the
    /// adapter wraps exactly this sender and starts from its view of the
    /// close flag.
    pub fn mpsc(self) -> (r: MicroBlockingSender<T>)
        ensures
            r.wrapped_sender() == self,
            r.closed_seen() == self.closed_seen(),
    {
        MicroBlockingSender::wrap(self)
    }
}


/// A receiver that is guaranteed to never block when receiving messages.
#[verifier::reject_recursive_types(T)]
pub struct NonBlockingReceiver<T> {
    inner: RingConsumer<T>,
    is_closed: CloseFlag,
}

impl<T> NonBlockingReceiver<T> {
    /// Whether this handle has already observed the channel as closed. Once
    /// true, every later operation on this handle reports `Disconnected`.
    pub closed spec fn closed_seen(&self) -> bool {
        self.is_closed.seen_closed()
    }

    /// Tries to receive a message without ever blocking, even briefly.
    ///
    /// # Result
    ///
    /// The close flag is read before the ring, so once the sending side has
    /// closed, this reports `Disconnected` even if unread messages remain in
    /// the ring; messages handed off before the close are not drained.
    pub fn try_recv(&mut self) -> (r: RecvResult<T>)
        ensures
            old(self).closed_seen() ==> r is Disconnected,
            r is Disconnected <==> final(self).closed_seen(),
    {
        if self.is_closed.check_closed() {
            RecvResult::Disconnected
        } else {
            RecvResult::of_pop(ring_pop(&mut self.inner))
        }
    }
}


/// Creates a channel of the given capacity: one non-blocking sender and one
/// non-blocking receiver bound to one fresh ring and one fresh close flag.
/// A zero capacity is rejected before construction: callers must establish
/// that the capacity is positive.
pub fn nonblocking_channel<T>(capacity: usize) -> (r: (
    NonBlockingSender<T>,
    NonBlockingReceiver<T>,
))
    requires
        capacity >= 1,
    ensures
        !r.0.closed_seen(),
        !r.1.closed_seen(),
        r.0.capacity() == capacity,
        r.0.pushed() == 0,
{
    let (producer, consumer) = ring_split(capacity);
    let is_closed = CloseFlag::flag_new();
    let sender_flag = is_closed.fork();

    let sender = NonBlockingSender { inner: producer, is_closed: sender_flag };
    let receiver = NonBlockingReceiver { inner: consumer, is_closed };

    (sender, receiver)
}

} // verus!
