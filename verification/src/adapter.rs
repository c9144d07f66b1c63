//! The blocking-adapter sender: one non-blocking sender shared behind a
//! mutex, so that any number of cloned handles can send, serialized by the
//! lock. The receiver side stays non-blocking regardless. The wrapped sender
//! is dropped — cascading the close — only when the last clone goes away,
//! through the reference count of the shared interior.
//!
//! Only the lock acquisitions are trusted here: each trusted function below
//! takes the lock and performs one primitive operation on the wrapped sender
//! (a flag read, or a ring insertion), and the branch between them — the one
//! decision the adapter makes — stands in the verified `try_send`.

use vstd::prelude::*;

use crate::channel::NonBlockingSender;
use crate::results::SendResult;
use crate::ring::ring_push;
use std::sync::Arc;
use std::sync::Mutex;

verus! {

/// The shared interior: one sender and its lock, behind a reference count.
/// `Mutex` hands out its contents through a guard type that cannot be
/// declared here, so the interior is held in a field hidden from
/// verification.
#[verifier::external_body]
#[verifier::reject_recursive_types(T)]
pub(crate) struct SharedSender<T> {
    inner: Arc<Mutex<NonBlockingSender<T>>>,
}

/// Relies on `Arc::new` and `Mutex::new`: moves the sender behind a fresh
/// lock and a fresh reference count of one.
#[verifier::external_body]
fn shared_new<T>(sender: NonBlockingSender<T>) -> (r: SharedSender<T>) {
    SharedSender { inner: Arc::new(Mutex::new(sender)) }
}

/// Relies on `Arc::clone`: another handle to the very same lock and sender,
/// equal to the handle it was made from.
#[verifier::external_body]
fn shared_clone<T>(shared: &SharedSender<T>) -> (r: SharedSender<T>)
    ensures
        r == *shared,
{
    SharedSender { inner: Arc::clone(&shared.inner) }
}

/// A variant of a [`NonBlockingSender`] which can block but only for very
/// short durations of time, much like the channels of `std` or `flume`.
/// Holding this variant of sender does not mean that the receiver will ever
/// block when receiving — the receiver provided by this crate never blocks.
#[verifier::reject_recursive_types(T)]
pub struct MicroBlockingSender<T> {
    inner: SharedSender<T>,
    wrapped: Ghost<NonBlockingSender<T>>,
}

impl<T> MicroBlockingSender<T> {
    /// The sender this adapter wraps, as it was when it was consumed by the
    /// conversion: the adapter's sends go to that sender's ring and flag.
    pub closed spec fn wrapped_sender(&self) -> NonBlockingSender<T> {
        self.wrapped@
    }

    /// Whether the wrapped sender had already observed the channel as closed
    /// when it was consumed. Once true, every send through this handle
    /// reports `Disconnected`: the shared close flag never reverts.
    pub closed spec fn closed_seen(&self) -> bool {
        self.wrapped@.closed_seen()
    }

    /// Wraps a sender for shared use; called when a sender is converted.
    /// The conversion moves the sender — it is consumed, not dropped — so no
    /// close cascade runs here, and the adapter keeps a ghost snapshot of
    /// the very sender it wrapped.
    pub(crate) fn wrap(sender: NonBlockingSender<T>) -> (r: MicroBlockingSender<T>)
        ensures
            r.wrapped_sender() == sender,
            r.closed_seen() == sender.closed_seen(),
    {
        let wrapped: Ghost<NonBlockingSender<T>> = Ghost(sender);
        MicroBlockingSender { inner: shared_new(sender), wrapped }
    }

    /// Tries to send a message through the shared sender, blocking only for
    /// the brief, bounded duration of one lock acquisition around the flag
    /// check and one around the ring insertion.
    ///
    /// # Result
    ///
    /// `Full` hands the very message back when the ring is at capacity;
    /// `Disconnected` reports that the channel was observed closed, and is
    /// all that is ever reported once this handle was made from a sender
    /// that had observed the close.
    pub fn try_send(&self, message: T) -> (r: SendResult<T>)
        ensures
            self.closed_seen() ==> r is Disconnected,
            r matches SendResult::Full(m) ==> m == message,
    {
        if locked_check_closed(self) {
            SendResult::Disconnected
        } else {
            SendResult::of_push(locked_push(self, message))
        }
    }
}

impl<T> Clone for MicroBlockingSender<T> {
    /// Another interchangeable handle to the same shared sender: the clone
    /// equals the handle it was made from.
    fn clone(&self) -> (r: Self)
        ensures
            r == *self,
    {
        MicroBlockingSender {
            inner: shared_clone(&self.inner),
            wrapped: Ghost(self.wrapped@),
        }
    }
}

/// Relies on `Mutex::lock`: blocks briefly until the lock is free, then
/// reads the wrapped sender's close flag through the trusted
/// `CloseFlag::check_closed`. If the sender had observed the closed state
/// by the time it was consumed into this adapter, the flag cell has held
/// `true` ever since — the cell's value is monotone — so this read returns
/// `true`. The lock can
/// only be poisoned by a panic while it is held, and nothing run under it
/// panics.
#[verifier::external_body]
fn locked_check_closed<T>(adapter: &MicroBlockingSender<T>) -> (closed: bool)
    ensures
        adapter.closed_seen() ==> closed,
{
    let mut guard = adapter.inner.inner.lock().unwrap();
    guard.is_closed.check_closed()
}

/// Relies on `Mutex::lock`: blocks briefly until the lock is free, then
/// hands the message to the trusted `ring_push` on the wrapped sender's ring
/// half — so a rejected message comes back unchanged inside `Err`. The lock
/// serializes the clones, keeping a single producer on the ring. It can only
/// be poisoned by a panic while it is held, and nothing run under it panics.
#[verifier::external_body]
fn locked_push<T>(adapter: &MicroBlockingSender<T>, message: T) -> (pushed: Result<(), T>)
    ensures
        pushed matches Err(m) ==> m == message,
{
    let mut guard = adapter.inner.inner.lock().unwrap();
    ring_push(&mut guard.inner, message)
}

} // verus!
