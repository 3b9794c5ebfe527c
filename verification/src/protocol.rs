//! The activation protocol as a transition system, and what holds of every
//! execution of it.
//!
//! An execution is a sequence of moves. A move is one iteration of the
//! ticker, or one step of the foreground: the load, the replay of one
//! event, or the serving of one command. Each move acts on the status as
//! the moving activity reads it, and makes calls on the collaborators.
//!
//! The transitions of the status are those of `tick_result` and
//! `replay_result`, which the executable ticker and wrapper are proved to
//! follow. The calls of a move, as `calls` lists them, are part of the
//! model alone: the collaborators are called through shared references
//! and keep no record, so no contract of an executable function speaks of
//! a call on the inbox, the election or the producer, and no proof ties
//! `calls` to the code.

use vstd::prelude::*;
use crate::sequencer::{caught_up_status, replay_result, tick_action, tick_result, Tick, TickAction};
use crate::status::Status;

verus! {

/// A call on a collaborator.
#[derive(Clone, Copy, Debug, PartialEq, Eq, Structural)]
pub enum Call {
    /// `Inbox::clear`
    Clear,
    /// `Election::elect`
    Elect,
    /// `Election::renew`
    Renew,
    /// `Producer::publish`
    Publish,
    /// `Sequencer::process`
    Process,
    /// `Logic::step`
    Step,
}

/// One move of an execution, with the answers that the collaborators gave.
pub enum Move {
    /// An iteration of the ticker; `granted` is the election's answer.
    Tick { granted: bool },
    /// The foreground loads the logic, which says whether it has caught up.
    Load { caught_up: bool },
    /// The foreground replays one event.
    Replay { caught_up: bool, cont: bool, activation: bool },
    /// The foreground serves one command, which the logic accepts or not.
    Command { accepted: bool },
}

/// The state of one sequencer instance.
pub struct System {
    /// The shared status.
    pub status: Status,
    /// Whether the foreground is still replaying.
    pub replaying: bool,
    /// Whether the process has ended on a lost lease.
    pub halted: bool,
}

/// The state in which every instance begins.
pub open spec fn initial() -> System {
    System { status: Status::Starting, replaying: true, halted: false }
}

/// Whether a move can be made in a state. A halted process makes none; the
/// foreground replays until the replay ends, and serves commands only once
/// it has ended and the instance is activated.
pub open spec fn enabled(sys: System, mv: Move) -> bool {
    !sys.halted && match mv {
        Move::Tick { .. } => true,
        Move::Load { .. } => sys.replaying,
        Move::Replay { .. } => sys.replaying,
        Move::Command { .. } => !sys.replaying && sys.status is Activated,
    }
}

/// The state after a move; a move that is not enabled changes nothing.
pub open spec fn after(sys: System, mv: Move) -> System {
    if !enabled(sys, mv) {
        sys
    } else {
        match mv {
            Move::Tick { granted } => match tick_result(sys.status, granted) {
                Tick::Proceed { next, .. } => System { status: next, ..sys },
                Tick::LeaseLost => System { halted: true, ..sys },
            },
            Move::Load { caught_up } => System {
                status: caught_up_status(sys.status, caught_up),
                ..sys
            },
            Move::Replay { caught_up, cont, activation } => {
                let replayed = replay_result(sys.status, caught_up, cont, activation);
                System { status: replayed.status, replaying: replayed.proceed, ..sys }
            },
            Move::Command { .. } => sys,
        }
    }
}

/// The calls that a move makes, in order; a move that is not enabled makes
/// none.
pub open spec fn calls(sys: System, mv: Move) -> Seq<Call> {
    if !enabled(sys, mv) {
        seq![]
    } else {
        match mv {
            Move::Tick { granted } => match tick_action(sys.status) {
                TickAction::ClearInbox => seq![Call::Clear],
                TickAction::Elect => seq![Call::Elect],
                _ => if granted {
                    seq![Call::Renew, Call::Publish]
                } else {
                    seq![Call::Renew]
                },
            },
            Move::Load { .. } => seq![],
            Move::Replay { .. } => seq![Call::Step],
            Move::Command { accepted } => if accepted {
                seq![Call::Process, Call::Publish, Call::Step]
            } else {
                seq![Call::Process]
            },
        }
    }
}

/// The state that a sequence of moves leads to.
pub open spec fn reach(sys: System, moves: Seq<Move>) -> System
    decreases moves.len(),
{
    if moves.len() == 0 {
        sys
    } else {
        after(reach(sys, moves.drop_last()), moves.last())
    }
}

/// What a tick returns tells what it did. It has published if and only if
/// it read `Leader` or `Activated` and the lease was renewed; it ends on a
/// lost lease if and only if it read one of the two and the renewal was
/// refused; and it never proposes an earlier status than it read.
pub proof fn law_tick_writes_only_with_lease(status: Status, granted: bool)
    ensures
        (tick_result(status, granted) matches Tick::Proceed { publish: Some(_), .. }) <==> (
        status.rank() >= Status::Leader.rank() && granted),
        tick_result(status, granted) is LeaseLost <==> (status.rank() >= Status::Leader.rank()
            && !granted),
        tick_result(status, granted) matches Tick::Proceed { next, .. } ==> next.rank()
            >= status.rank(),
{
}

/// The calls of a tick agree with its result: it publishes exactly when
/// the result names a payload, and whenever it publishes it has renewed
/// the lease just before.
pub proof fn law_tick_calls_match_result(sys: System, granted: bool)
    requires
        !sys.halted,
    ensures
        calls(sys, Move::Tick { granted }).contains(Call::Publish) <==> (tick_result(
            sys.status,
            granted,
        ) matches Tick::Proceed { publish: Some(_), .. }),
        calls(sys, Move::Tick { granted }).contains(Call::Publish) ==> calls(
            sys,
            Move::Tick { granted },
        ) == seq![Call::Renew, Call::Publish],
{
    let made = calls(sys, Move::Tick { granted });
    if made.contains(Call::Publish) {
        let at = choose|i: int| 0 <= i < made.len() && made[i] == Call::Publish;
        assert(made[at] == Call::Publish);
    }
    if tick_result(sys.status, granted) matches Tick::Proceed { publish: Some(_), .. } {
        assert(made == seq![Call::Renew, Call::Publish]);
        assert(made[1] == Call::Publish);
    }
}

/// The status never goes back: no move lowers it.
pub proof fn law_move_keeps_order(sys: System, mv: Move)
    ensures
        after(sys, mv).status.rank() >= sys.status.rank(),
{
}

/// Along every execution, from any state, the status only rises: what is
/// read later is never earlier in the lifecycle than what was read before.
pub proof fn law_status_monotone(sys: System, moves: Seq<Move>, seen: int)
    requires
        0 <= seen <= moves.len(),
    ensures
        reach(sys, moves.take(seen)).status.rank() <= reach(sys, moves).status.rank(),
    decreases moves.len(),
{
    if seen == moves.len() {
        assert(moves.take(seen) =~= moves);
    } else {
        let shorter = moves.drop_last();
        assert(shorter.take(seen) =~= moves.take(seen));
        law_status_monotone(sys, shorter, seen);
        law_move_keeps_order(reach(sys, shorter), moves.last());
    }
}

/// Nothing is published before the status has reached `Leader`: in every
/// state of every execution, a move that publishes reads a status of
/// `Leader` or `Activated`.
pub proof fn law_publish_needs_lease(moves: Seq<Move>, mv: Move)
    ensures
        calls(reach(initial(), moves), mv).contains(Call::Publish)
            ==> reach(initial(), moves).status.rank() >= Status::Leader.rank(),
{
    let sys = reach(initial(), moves);
    let made = calls(sys, mv);
    if made.contains(Call::Publish) {
        let at = choose|i: int| 0 <= i < made.len() && made[i] == Call::Publish;
        assert(made[at] == Call::Publish);
    }
}

/// No command is processed before the status has reached `Activated`.
pub proof fn law_process_needs_activation(moves: Seq<Move>, mv: Move)
    ensures
        calls(reach(initial(), moves), mv).contains(Call::Process)
            ==> reach(initial(), moves).status is Activated,
{
    let sys = reach(initial(), moves);
    let made = calls(sys, mv);
    if made.contains(Call::Process) {
        let at = choose|i: int| 0 <= i < made.len() && made[i] == Call::Process;
        assert(made[at] == Call::Process);
    }
}

/// The inbox is cleared by every tick that reads `Starting`, and by no move
/// that reads anything else.
pub proof fn law_clear_only_while_starting(moves: Seq<Move>, mv: Move, granted: bool)
    ensures
        calls(reach(initial(), moves), mv).contains(Call::Clear)
            ==> reach(initial(), moves).status is Starting,
        reach(initial(), moves).status is Starting && !reach(initial(), moves).halted
            ==> calls(reach(initial(), moves), Move::Tick { granted }) == seq![Call::Clear],
{
    let sys = reach(initial(), moves);
    let made = calls(sys, mv);
    if made.contains(Call::Clear) {
        let at = choose|i: int| 0 <= i < made.len() && made[i] == Call::Clear;
        assert(made[at] == Call::Clear);
    }
}

/// A tick whose renewal is refused publishes nothing and halts the
/// process, and a halted process makes no call ever after.
pub proof fn law_lost_lease_ends_all(sys: System, later: Seq<Move>, mv: Move)
    requires
        !sys.halted,
        sys.status.rank() >= Status::Leader.rank(),
    ensures
        calls(sys, Move::Tick { granted: false }) == seq![Call::Renew],
        after(sys, Move::Tick { granted: false }).halted,
        reach(after(sys, Move::Tick { granted: false }), later).halted,
        calls(reach(after(sys, Move::Tick { granted: false }), later), mv) == Seq::<Call>::empty(),
{
    lemma_halted_stays(after(sys, Move::Tick { granted: false }), later);
}

/// A halted process stays as it is.
proof fn lemma_halted_stays(sys: System, moves: Seq<Move>)
    requires
        sys.halted,
    ensures
        reach(sys, moves) == sys,
    decreases moves.len(),
{
    if moves.len() > 0 {
        lemma_halted_stays(sys, moves.drop_last());
    }
}

/// Serving a command that the logic accepts makes exactly three calls, in
/// this order: the command is processed, the event is published, and the
/// event is applied to the instance's own logic, once. A rejected command
/// is processed and nothing else. Either way the state is as before, so
/// the next command is looked at only after that.
pub proof fn law_published_event_is_applied(sys: System, accepted: bool)
    requires
        enabled(sys, Move::Command { accepted }),
    ensures
        accepted ==> calls(sys, Move::Command { accepted }) == seq![
            Call::Process,
            Call::Publish,
            Call::Step,
        ],
        !accepted ==> calls(sys, Move::Command { accepted }) == seq![Call::Process],
        after(sys, Move::Command { accepted }) == sys,
{
}

/// Reading back the instance's own activation activates it and ends the
/// replay whatever the status was, and reading it back again changes
/// nothing; while the instance leads, each tick with a renewed lease
/// leaves the status at `Leader`, so the activation can be written again.
pub proof fn law_activation_repeats_safely(
    status: Status,
    caught_up: bool,
    cont: bool,
    again_caught_up: bool,
    again_cont: bool,
)
    ensures
        replay_result(status, caught_up, cont, true).status is Activated,
        !replay_result(status, caught_up, cont, true).proceed,
        replay_result(
            replay_result(status, caught_up, cont, true).status,
            again_caught_up,
            again_cont,
            true,
        ) == replay_result(status, caught_up, cont, true),
        tick_result(Status::Leader, true) matches Tick::Proceed { next, .. } && next is Leader,
{
}

/// An event that is not the instance's own activation never activates it:
/// the status is what the caught-up check left, and the replay goes on as
/// the logic says.
pub proof fn law_foreign_activation_ignored(status: Status, caught_up: bool, cont: bool)
    ensures
        replay_result(status, caught_up, cont, false).status == caught_up_status(status, caught_up),
        replay_result(status, caught_up, cont, false).proceed == cont,
        !(status is Activated) ==> !(replay_result(status, caught_up, cont, false).status is Activated),
{
}

} // verus!
