//! The command intake of a sequencer.

use vstd::prelude::*;
use crate::Receiver;

verus! {

/// Source of incoming commands to be sequenced.
///
/// Unlike a stream, an inbox is not durable: it is built for low latency,
/// and a command that fails to reach the sequencer is retried by its client.
pub trait Inbox: Receiver + Sync {
    /// Drops every command that is buffered at the moment.
    fn clear(&self);
}

/// Client-side handle for submitting commands to a sequencer's inbox.
pub trait Sender {
    /// Submits a command, best effort.
    fn send(&self, command: &[u8]);
}

} // verus!
