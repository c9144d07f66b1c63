//! A bounded single-producer/single-consumer message channel whose send and
//! receive operations never block, plus an adapter that serializes several
//! producers behind a lock while keeping the receiver non-blocking.
//!
//! A channel is one fixed-capacity ring and one shared close flag; dropping
//! either half sets the flag, and the other half observes it on its next
//! operation and reports `Disconnected` from then on.

mod adapter;
mod channel;
mod flag;
mod results;
mod ring;

pub use adapter::MicroBlockingSender;
pub use channel::NonBlockingReceiver;
pub use channel::NonBlockingSender;
pub use channel::nonblocking_channel;
pub use results::RecvResult;
pub use results::SendResult;
