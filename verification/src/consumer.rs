//! The consumer loop: replay of a stream into a logic.
//!
//! The loop knows nothing of leadership or liveness: it hands over event
//! after event until the logic says stop. Every loop here is bounded by a
//! limit that the caller sets; a caller that wants none goes on with
//! `pump`, on the receiver that `run` hands back, for as long as the logic
//! has not stopped.

use vstd::prelude::*;
use crate::Receiver;
use crate::logic::Logic;
use crate::stream::Stream;

verus! {

/// How far a replay went.
#[derive(Clone, Copy, Debug, PartialEq, Eq, Structural)]
pub struct Progress {
    /// How many events were received and applied.
    pub events: u64,
    /// Whether the logic asked to stop, at the last of them.
    pub stopped: bool,
}

/// Whether `progress` can be the end of a replay of at most `limit`
/// events: a replay ends when the logic asks to stop, which takes an
/// event, and short of that only at the limit.
pub open spec fn ended_within(progress: Progress, limit: u64) -> bool {
    &&& progress.events <= limit
    &&& progress.stopped ==> progress.events >= 1
    &&& !progress.stopped ==> progress.events == limit
}

/// Whether a logic whose answers were `before` can have come to the
/// answers `after` by a replay that ended at `progress`: one answer was
/// added for each event counted, every one of them but the last was to go
/// on, and the last was to stop exactly if the replay has stopped. So a
/// replay applies nothing after the first answer to stop.
pub open spec fn replayed(before: Seq<bool>, after: Seq<bool>, progress: Progress) -> bool {
    &&& before.is_prefix_of(after)
    &&& after.len() == before.len() + progress.events
    &&& forall|i: int| before.len() <= i < after.len() - 1 ==> after[i]
    &&& progress.events > 0 ==> progress.stopped == !after.last()
    &&& progress.events == 0 ==> !progress.stopped
}

/// Applies one received event to the logic and counts it: the replay has
/// stopped exactly if the logic answered so.
pub fn feed<L: Logic>(logic: &mut L, event: &[u8], progress: Progress) -> (next: Progress)
    requires
        progress.events < u64::MAX,
    ensures
        next.events == progress.events + 1,
        final(logic).answers() == old(logic).answers().push(!next.stopped),
        final(logic).applied() == old(logic).applied().push(event@),
        final(logic).origin() == old(logic).origin(),
{
    let proceed = logic.step(event);
    Progress { events: progress.events + 1, stopped: !proceed }
}

/// Receives events from `receiver` and applies each to `logic`, in the
/// order received, until the logic returns `false` or `limit` events have
/// been applied. What the logic had applied before stays, and as many
/// events are added to it as the result counts; the logic answered to go
/// on at each of them but the last, and the replay has stopped exactly if
/// it answered to stop at the last.
pub fn pump<R, L>(receiver: &R, logic: &mut L, limit: u64) -> (progress: Progress)
    where R: Receiver, L: Logic,
    ensures
        ended_within(progress, limit),
        old(logic).applied().is_prefix_of(final(logic).applied()),
        final(logic).applied().len() == old(logic).applied().len() + progress.events,
        final(logic).origin() == old(logic).origin(),
        replayed(old(logic).answers(), final(logic).answers(), progress),
{
    let mut progress = Progress { events: 0, stopped: false };
    while progress.events < limit && !progress.stopped
        invariant
            progress.events <= limit,
            old(logic).applied().is_prefix_of(logic.applied()),
            logic.applied().len() == old(logic).applied().len() + progress.events,
            logic.origin() == old(logic).origin(),
            replayed(old(logic).answers(), logic.answers(), progress),
        decreases (limit - progress.events) + (if progress.stopped { 0int } else { 1int }),
    {
        let event = receiver.recv();
        progress = feed(logic, event.as_slice(), progress);
    }
    progress
}

/// Runs the consumer loop: loads the logic, subscribes to `stream` at the
/// offset that the load returned, then applies each event received to the
/// logic, until the logic returns `false` or `limit` events have been
/// applied. Returns how far it went, and the receiver, on which `pump`
/// goes on where this replay ended.
pub fn run<S, L>(stream: &S, logic: &mut L, limit: u64) -> (replay: (Progress, S::Receiver))
    where S: Stream, L: Logic,
    ensures
        ended_within(replay.0, limit),
        replay.1.origin() == final(logic).origin(),
        final(logic).applied().len() == replay.0.events,
        replayed(Seq::<bool>::empty(), final(logic).answers(), replay.0),
{
    let offset: u64 = logic.load();
    let receiver = stream.subscribe(offset);
    let progress = pump(&receiver, logic, limit);
    (progress, receiver)
}

} // verus!
