//! Replay-driven state.

use vstd::prelude::*;

verus! {

/// The event-handling logic of a stream processor, kept apart from the loop
/// that feeds it.
///
/// Four names let contracts speak of what a logic was given and what it
/// answered: `origin`, `applied`, `answers` and `live`. They exist in proofs
/// only and cost nothing at run time. A verified implementation has to
/// define them, most simply over ghost fields that its methods set: with
/// the bodies given here, which stand for values of which nothing is
/// known, `load` and `step` cannot be proved. Of an implementation outside
/// verified code, the clauses below are taken on trust.
pub trait Logic {
    /// The offset that the last `load` returned.
    open spec fn origin(&self) -> u64 {
        arbitrary()
    }

    /// The events applied since the last `load`, oldest first.
    open spec fn applied(&self) -> Seq<Seq<u8>> {
        arbitrary()
    }

    /// What `step` answered to each of the events applied since the last
    /// `load`, in the same order: whether to go on.
    open spec fn answers(&self) -> Seq<bool> {
        arbitrary()
    }

    /// What the logic answered when it was last asked whether it has
    /// caught up. The answer may depend on more than the events applied,
    /// the time of day for one; the name stands for the answer as given.
    open spec fn live(&self) -> bool {
        arbitrary()
    }

    /// Initializes state and returns the offset from which to replay.
    /// Nothing is applied yet.
    fn load(&mut self) -> (offset: u64)
        ensures
            offset == final(self).origin(),
            final(self).applied() == Seq::<Seq<u8>>::empty(),
            final(self).answers() == Seq::<bool>::empty(),
    ;

    /// Applies one event. Returns `true` to continue, `false` to stop.
    fn step(&mut self, event: &[u8]) -> (proceed: bool)
        ensures
            final(self).applied() == old(self).applied().push(event@),
            final(self).answers() == old(self).answers().push(proceed),
            final(self).origin() == old(self).origin(),
    ;

    /// Tells whether the replay has reached a live point of the stream.
    /// Applies nothing.
    fn caught_up(&mut self) -> (yes: bool)
        ensures
            yes == final(self).live(),
            final(self).applied() == old(self).applied(),
            final(self).answers() == old(self).answers(),
            final(self).origin() == old(self).origin(),
    ;
}

} // verus!
