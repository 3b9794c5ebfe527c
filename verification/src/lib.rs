//! Core abstractions for building event-driven architectures: a replicated
//! sequencer that turns commands into a linear event log, and the consumer
//! that rebuilds state by replaying that log.

use vstd::prelude::*;

pub mod consumer;
pub mod election;
pub mod inbox;
pub mod logic;
pub mod protocol;
pub mod sequencer;
pub mod status;
pub mod stream;

verus! {

/// A receiver for consuming payloads from a stream or an inbox.
///
/// Delivery is blocking, ordered and lossless for a single subscriber.
pub trait Receiver {
    /// The offset at which a receiver of a stream was opened. Of a
    /// receiver that is no subscription, an inbox for one, it says
    /// nothing. It exists in proofs only.
    open spec fn origin(&self) -> u64 {
        arbitrary()
    }

    /// Receives the next payload, blocking until one is available.
    ///
    /// No error is returned: transient failures are the implementation's to
    /// handle, by reconnecting and retrying.
    fn recv(&self) -> Vec<u8>;
}

} // verus!
