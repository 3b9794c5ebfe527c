//! The durable, ordered event log.

use vstd::prelude::*;
use crate::Receiver;

verus! {

/// The storage behind an event stream: persistent, durable, ordered, and
/// without deduplication.
pub trait Stream {
    type Receiver: Receiver;

    /// Subscribes to the stream starting at `offset`, inclusive.
    ///
    /// An offset names a position in the log; it is not a sequence number,
    /// and the same sequence number may appear at several offsets.
    fn subscribe(&self, offset: u64) -> (receiver: Self::Receiver)
        ensures
            receiver.origin() == offset,
    ;
}

/// Appends events to a stream.
pub trait Producer: Sync {
    /// Publishes `data`, blocking until it is durable.
    ///
    /// Never fails: an implementation that cannot persist aborts.
    fn publish(&self, data: &[u8]);
}

} // verus!
