//! Tagged outcomes for the send and receive operations. A rejected message is
//! carried back to the caller inside `Full`, so no data is silently lost.

use vstd::prelude::*;

verus! {

/// The result of trying to send a message.
#[must_use]
#[derive(Debug, Clone, Copy, PartialEq, Eq, PartialOrd, Ord, Hash)]
pub enum SendResult<T> {
    Sent,
    Full(T),
    Disconnected,
}

impl<T> SendResult<T> {
    /// Checks if the receiving end of the channel had been dropped when a
    /// message was sent.
    pub fn is_disconnected(&self) -> (r: bool)
        ensures
            r == (self is Disconnected),
    {
        matches!(self, Self::Disconnected)
    }

    /// Checks that the attempt was not a disconnection: the message was
    /// sent, or the queue was merely full.
    pub fn is_ok(&self) -> (r: bool)
        ensures
            r == !(self is Disconnected),
    {
        matches!(self, Self::Sent | Self::Full(_))
    }

    /// Builds the send outcome from what the ring reported: a rejected
    /// message comes back unchanged inside `Full`.
    pub fn of_push(pushed: Result<(), T>) -> (r: SendResult<T>)
        ensures
            pushed is Ok ==> r is Sent,
            pushed matches Err(m) ==> r == SendResult::Full(m),
    {
        match pushed {
            Ok(()) => SendResult::Sent,
            Err(message) => SendResult::Full(message),
        }
    }
}

impl<T: core::fmt::Debug> SendResult<T> {
    /// Yields nothing on success or on a merely full queue; only a
    /// disconnected channel is a fatal error, so this is a caller-opt-in
    /// convenience, never for the hot non-blocking path.
    pub fn unwrap(self)
        requires
            !(self is Disconnected),
    {
        match self {
            SendResult::Sent => (),
            SendResult::Full(_) => (),
            SendResult::Disconnected => (),
        }
    }
}

/// The result of trying to receive a message.
#[must_use]
#[derive(Debug, Clone, Copy, PartialEq, Eq, PartialOrd, Ord, Hash)]
pub enum RecvResult<T> {
    Received(T),
    Empty,
    Disconnected,
}

impl<T> RecvResult<T> {
    /// Checks if the sending end(s) of the channel had been dropped when a
    /// message was received.
    pub fn is_disconnected(&self) -> (r: bool)
        ensures
            r == (self is Disconnected),
    {
        matches!(self, Self::Disconnected)
    }

    /// Checks if either a message was received, or there was nothing in the
    /// channel.
    pub fn is_ok(&self) -> (r: bool)
        ensures
            r == (self is Received || self is Empty),
    {
        matches!(self, Self::Received(_) | Self::Empty)
    }

    /// Builds the receive outcome from what the ring reported: a removed
    /// message is handed on unchanged inside `Received`.
    pub fn of_pop(popped: Option<T>) -> (r: RecvResult<T>)
        ensures
            popped matches Some(m) ==> r == RecvResult::Received(m),
            popped is None ==> r is Empty,
    {
        match popped {
            Some(message) => RecvResult::Received(message),
            None => RecvResult::Empty,
        }
    }

    /// Yields the message on success, nothing when the channel was merely
    /// empty; a disconnected channel is a fatal error, so this is a
    /// caller-opt-in convenience.
    pub fn unwrap(self) -> (r: Option<T>)
        requires
            !(self is Disconnected),
        ensures
            self matches RecvResult::Received(m) ==> r == Some(m),
            self is Empty ==> r is None,
    {
        match self {
            RecvResult::Received(message) => Some(message),
            RecvResult::Empty => None,
            RecvResult::Disconnected => None,
        }
    }
}

} // verus!
