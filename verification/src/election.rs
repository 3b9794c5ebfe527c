//! Lease-based leader election.

use vstd::prelude::*;

verus! {

/// Leader election for sequencer redundancy.
///
/// Several sequencers may exist for redundancy, but only one may publish to
/// the stream at a time. Leadership is a lease with a timeout: the leader
/// renews it periodically, and a sequencer that loses it must stop at once.
pub trait Election: Sync {
    /// Attempts to acquire leadership; `true` if this sequencer now holds
    /// the lease.
    fn elect(&self) -> bool;

    /// Renews the lease; `false` means that the lease is lost.
    fn renew(&self) -> bool;
}

} // verus!
