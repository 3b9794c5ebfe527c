//! The sequencer: the one writer of the stream.
//!
//! A sequencer receives commands from an inbox, turns them into events and
//! publishes those to the stream. Only one sequencer may be active at a
//! time. Its life has four phases: it replays the stream to rebuild state;
//! once caught up it seeks the lease; holding the lease it writes its
//! activation until it reads it back from the stream; from then on it
//! serves commands and writes heartbeats.
//!
//! Two activities share the status: a foreground that replays and then
//! serves, and a periodic ticker that clears, elects, renews and publishes.
//! Each iteration of either is a function here; the caller supplies the
//! threads and the clock.

use vstd::prelude::*;
use crate::election::Election;
use crate::inbox::Inbox;
use crate::logic::Logic;
use crate::status::Status;
use crate::stream::Producer;

verus! {

/// A source of event payloads: each call yields a fresh one.
pub trait EventGenerator: Send + Sync {
    fn generate(&self) -> Vec<u8>;
}

/// Logic for processing commands into events.
pub trait Sequencer: Logic {
    /// The type of the activation and heartbeat generators.
    type Generator: EventGenerator;

    /// What the logic makes of `command` in its current state: the bytes
    /// of the event, or `None` for a command that it rejects. This is the
    /// name by which contracts speak of what `process` returns, as a
    /// matter of the logic's state and the command alone: an
    /// implementation that stamps its events with the time of day or with
    /// a random value cannot meet the contract of `process`, unless it
    /// draws the stamp beforehand and keeps it in its state. It exists in
    /// proofs only; a verified implementation defines it.
    open spec fn processed(&self, command: Seq<u8>) -> Option<Seq<u8>> {
        arbitrary()
    }

    /// Validates a command against the current state and, if it is valid,
    /// produces the event for it. `None` rejects the command.
    fn process(&self, command: &[u8]) -> (event: Option<Vec<u8>>)
        ensures
            payload(event) == self.processed(command@),
    ;

    /// The generator of this instance's activation events.
    fn activator(&self) -> Self::Generator;

    /// The generator of heartbeat events.
    fn heartbeat(&self) -> Self::Generator;

    /// Whether `event` is an activation of this very instance, as a
    /// matter of the logic's state and the event alone: the name by which
    /// contracts speak of what `is_activation` answers. It exists in
    /// proofs only; a verified implementation defines it.
    open spec fn own_activation(&self, event: Seq<u8>) -> bool {
        arbitrary()
    }

    /// Tells whether `event` is an activation that this very instance
    /// produced. Another instance's activation is not.
    fn is_activation(&self, event: &[u8]) -> (yes: bool)
        ensures
            yes == self.own_activation(event@),
    ;
}

/// The bytes of an event that may be absent.
pub open spec fn payload(event: Option<Vec<u8>>) -> Option<Seq<u8>> {
    match event {
        Some(bytes) => Some(bytes@),
        None => None,
    }
}

/// What the ticker undertakes at a given status.
#[derive(Clone, Copy, Debug, PartialEq, Eq, Structural)]
pub enum TickAction {
    /// Drop the commands that arrived before they can be served.
    ClearInbox,
    /// Try to acquire the lease.
    Elect,
    /// Renew the lease, then write an activation.
    Activate,
    /// Renew the lease, then write a heartbeat.
    Heartbeat,
}

/// The kind of event that the ticker writes.
#[derive(Clone, Copy, Debug, PartialEq, Eq, Structural)]
pub enum Payload {
    Activation,
    Heartbeat,
}

/// How one tick ended.
#[derive(Clone, Copy, Debug, PartialEq, Eq, Structural)]
pub enum Tick {
    /// The ticker goes on at status `next`, having written `publish`.
    Proceed { next: Status, publish: Option<Payload> },
    /// The lease is lost. Nothing was written, and the process must end
    /// before anything else is.
    LeaseLost,
}

/// The action of the ticker at each status.
pub open spec fn tick_action(status: Status) -> TickAction {
    match status {
        Status::Starting => TickAction::ClearInbox,
        Status::CaughtUp => TickAction::Elect,
        Status::Leader => TickAction::Activate,
        Status::Activated => TickAction::Heartbeat,
    }
}

/// The end of a tick at `status`, given the election's answer `granted`
/// (that of `elect` when caught up, of `renew` when leading; not asked for
/// while starting).
pub open spec fn tick_result(status: Status, granted: bool) -> Tick {
    match status {
        Status::Starting => Tick::Proceed { next: Status::Starting, publish: None },
        Status::CaughtUp => Tick::Proceed {
            next: if granted { Status::Leader } else { Status::CaughtUp },
            publish: None,
        },
        Status::Leader => if granted {
            Tick::Proceed { next: Status::Leader, publish: Some(Payload::Activation) }
        } else {
            Tick::LeaseLost
        },
        Status::Activated => if granted {
            Tick::Proceed { next: Status::Activated, publish: Some(Payload::Heartbeat) }
        } else {
            Tick::LeaseLost
        },
    }
}

/// Chooses the ticker's action for the status it has read.
pub fn plan_tick(status: Status) -> (action: TickAction)
    ensures
        action == tick_action(status),
{
    match status {
        Status::Starting => TickAction::ClearInbox,
        Status::CaughtUp => TickAction::Elect,
        Status::Leader => TickAction::Activate,
        Status::Activated => TickAction::Heartbeat,
    }
}

/// Settles a tick once the election has answered.
pub fn settle_tick(status: Status, granted: bool) -> (tick: Tick)
    ensures
        tick == tick_result(status, granted),
{
    match plan_tick(status) {
        TickAction::ClearInbox => Tick::Proceed { next: status, publish: None },
        TickAction::Elect => {
            let next = if granted { Status::Leader } else { status };
            Tick::Proceed { next, publish: None }
        },
        TickAction::Activate => if granted {
            Tick::Proceed { next: status, publish: Some(Payload::Activation) }
        } else {
            Tick::LeaseLost
        },
        TickAction::Heartbeat => if granted {
            Tick::Proceed { next: status, publish: Some(Payload::Heartbeat) }
        } else {
            Tick::LeaseLost
        },
    }
}

/// Runs one iteration of the ticker at the status it has read.
///
/// While starting it clears the inbox. Caught up, it asks for the lease.
/// Leading or activated, it renews the lease first and publishes only if
/// the lease was renewed: an activation while leading, a heartbeat once
/// activated. The result is `tick_result` of the status and of what the
/// election answered; on `LeaseLost` the caller ends the process.
pub fn tick<P, I, E, G>(
    status: Status,
    producer: &P,
    inbox: &I,
    election: &E,
    activate: &G,
    heartbeat: &G,
) -> (tick: Tick)
    where P: Producer, I: Inbox, E: Election, G: EventGenerator,
    ensures
        exists|granted: bool| tick == #[trigger] tick_result(status, granted),
        status is Starting ==> tick == (Tick::Proceed { next: Status::Starting, publish: None }),
        tick matches Tick::Proceed { next, .. } ==> next.rank() >= status.rank(),
        tick matches Tick::Proceed { publish: Some(_), .. } ==> status.rank()
            >= Status::Leader.rank(),
        tick is LeaseLost ==> status.rank() >= Status::Leader.rank(),
{
    let granted = match plan_tick(status) {
        TickAction::ClearInbox => {
            inbox.clear();
            true
        },
        TickAction::Elect => election.elect(),
        TickAction::Activate => election.renew(),
        TickAction::Heartbeat => election.renew(),
    };
    let tick = settle_tick(status, granted);
    match tick {
        Tick::Proceed { publish: Some(Payload::Activation), .. } => {
            let event = activate.generate();
            producer.publish(event.as_slice());
        },
        Tick::Proceed { publish: Some(Payload::Heartbeat), .. } => {
            let event = heartbeat.generate();
            producer.publish(event.as_slice());
        },
        _ => {},
    }
    tick
}

/// How the replay of one event ended.
#[derive(Clone, Copy, Debug, PartialEq, Eq, Structural)]
pub struct Replayed {
    /// The status after the event.
    pub status: Status,
    /// Whether the replay goes on.
    pub proceed: bool,
}

/// The status after the logic was asked whether it has caught up: only a
/// starting sequencer moves, and only on a yes.
pub open spec fn caught_up_status(status: Status, caught_up: bool) -> Status {
    if status is Starting && caught_up {
        Status::CaughtUp
    } else {
        status
    }
}

/// The end of the replay of one event: `caught_up` is the logic's answer
/// before the event, `cont` what its `step` returned, and `activation`
/// whether the event is the instance's own activation.
pub open spec fn replay_result(status: Status, caught_up: bool, cont: bool, activation: bool) -> Replayed {
    if activation {
        Replayed { status: Status::Activated, proceed: false }
    } else {
        Replayed { status: caught_up_status(status, caught_up), proceed: cont }
    }
}

/// Moves a starting sequencer on when its logic has caught up.
pub fn note_caught_up(status: Status, caught_up: bool) -> (next: Status)
    ensures
        next == caught_up_status(status, caught_up),
{
    match status {
        Status::Starting => if caught_up { Status::CaughtUp } else { status },
        _ => status,
    }
}

/// Settles the replay of one event from what the logic answered.
pub fn settle_replay(status: Status, caught_up: bool, cont: bool, activation: bool) -> (replayed: Replayed)
    ensures
        replayed == replay_result(status, caught_up, cont, activation),
{
    if activation {
        Replayed { status: Status::Activated, proceed: false }
    } else {
        Replayed { status: note_caught_up(status, caught_up), proceed: cont }
    }
}

/// A sequencer's logic together with its status: as a `Logic` it records,
/// event by event, how far the instance has come.
pub struct Wrapper<S> {
    pub status: Status,
    pub logic: S,
    /// What `step` answered to each event replayed since the last `load`.
    pub answered: Ghost<Seq<bool>>,
}

impl<S: Sequencer> Wrapper<S> {
    /// Wraps the logic of an instance that is starting.
    pub fn new(logic: S) -> (wrapper: Self)
        ensures
            wrapper.status is Starting,
            wrapper.logic == logic,
    {
        Wrapper { status: Status::Starting, logic, answered: Ghost(Seq::empty()) }
    }

    /// Takes in what the ticker has made of the status meanwhile: the later
    /// of the two stands.
    pub fn observe(&mut self, seen: Status)
        ensures
            final(self).status == old(self).status.later(seen),
            final(self).logic == old(self).logic,
            final(self).answered == old(self).answered,
    {
        self.status = self.status.merge(seen);
    }

    /// Asks the logic whether it has caught up and, if so, moves a starting
    /// instance on.
    pub fn check_caught_up(&mut self)
        ensures
            final(self).status == caught_up_status(old(self).status, final(self).logic.live()),
            final(self).status.rank() >= old(self).status.rank(),
            final(self).logic.applied() == old(self).logic.applied(),
            final(self).logic.origin() == old(self).logic.origin(),
    {
        let caught_up = self.logic.caught_up();
        self.status = note_caught_up(self.status, caught_up);
    }

    /// Carries out what the logic made of a command, in the name of an
    /// activated instance: an event is published and then applied to the
    /// instance's own logic, once; a rejection does nothing. Returns what
    /// it was given.
    pub fn commit<P: Producer>(&mut self, producer: &P, processed: Option<Vec<u8>>) -> (published:
        Option<Vec<u8>>)
        requires
            old(self).status is Activated,
        ensures
            published == processed,
            final(self).status is Activated,
            final(self).logic.applied() == match processed {
                Some(event) => old(self).logic.applied().push(event@),
                None => old(self).logic.applied(),
            },
    {
        match processed {
            Some(event) => {
                producer.publish(event.as_slice());
                self.logic.step(event.as_slice());
                Some(event)
            },
            None => None,
        }
    }

    /// Serves one command in the name of an activated instance: if the
    /// logic accepts it, the event is published and then applied to the
    /// logic itself, before the next command is looked at. Returns that
    /// event, which is what the logic, as it was, makes of the command;
    /// `None` if the command was rejected and nothing published.
    pub fn serve<P: Producer>(&mut self, producer: &P, command: &[u8]) -> (published: Option<Vec<u8>>)
        requires
            old(self).status is Activated,
        ensures
            payload(published) == old(self).logic.processed(command@),
            final(self).status is Activated,
            final(self).logic.applied() == match old(self).logic.processed(command@) {
                Some(event) => old(self).logic.applied().push(event),
                None => old(self).logic.applied(),
            },
    {
        let processed = self.logic.process(command);
        self.commit(producer, processed)
    }
}

impl<S: Sequencer> Logic for Wrapper<S> {
    /// The offset that the logic inside was loaded at.
    open spec fn origin(&self) -> u64 {
        self.logic.origin()
    }

    /// What the wrapper has applied is what the logic inside has.
    open spec fn applied(&self) -> Seq<Seq<u8>> {
        self.logic.applied()
    }

    /// What the wrapper answered, event by event.
    open spec fn answers(&self) -> Seq<bool> {
        self.answered@
    }

    /// The wrapper is live when the logic inside is.
    open spec fn live(&self) -> bool {
        self.logic.live()
    }

    /// Loads the logic, then asks it whether it has caught up already, and
    /// moves a starting instance on if so. Returns the logic's offset.
    fn load(&mut self) -> (offset: u64)
        ensures
            offset == final(self).logic.origin(),
            final(self).logic.applied() == Seq::<Seq<u8>>::empty(),
            final(self).status == caught_up_status(old(self).status, final(self).logic.live()),
            final(self).status.rank() >= old(self).status.rank(),
    {
        let offset: u64 = self.logic.load();
        self.check_caught_up();
        self.answered = Ghost(Seq::empty());
        offset
    }

    /// Replays one event: asks the logic whether it has caught up, applies
    /// the event to it, once, and then asks it whether the event is the
    /// instance's own activation. The status and the result are
    /// `replay_result` of these three answers, of which the first has no
    /// name once the event is applied. So the status never goes
    /// back; an own activation activates the instance and ends the replay;
    /// and any other event moves the status at most from `Starting` to
    /// `CaughtUp`.
    fn step(&mut self, event: &[u8]) -> (proceed: bool)
        ensures
            exists|caught_up: bool|
                (Replayed { status: final(self).status, proceed }) == #[trigger] replay_result(
                    old(self).status,
                    caught_up,
                    final(self).logic.answers().last(),
                    final(self).logic.own_activation(event@),
                ),
            proceed == (final(self).logic.answers().last() && !final(self).logic.own_activation(
                event@,
            )),
            final(self).logic.answers() == old(self).logic.answers().push(
                final(self).logic.answers().last(),
            ),
            final(self).status.rank() >= old(self).status.rank(),
            final(self).logic.own_activation(event@) ==> final(self).status is Activated
                && !proceed,
            !final(self).logic.own_activation(event@) ==> final(self).status == old(self).status
                || (old(self).status is Starting && final(self).status is CaughtUp),
            final(self).logic.applied() == old(self).logic.applied().push(event@),
            final(self).logic.origin() == old(self).logic.origin(),
    {
        let caught_up = self.logic.caught_up();
        let cont = self.logic.step(event);
        assert(self.logic.answers().last() == cont);
        let activation = self.logic.is_activation(event);
        let replayed = settle_replay(self.status, caught_up, cont, activation);
        self.status = replayed.status;
        self.answered = Ghost(self.answered@.push(replayed.proceed));
        replayed.proceed
    }

    /// Forwards the question to the logic and returns its answer; the
    /// status stays.
    fn caught_up(&mut self) -> (yes: bool)
        ensures
            yes == final(self).logic.live(),
            final(self).status == old(self).status,
            final(self).logic.applied() == old(self).logic.applied(),
            final(self).logic.origin() == old(self).logic.origin(),
    {
        self.logic.caught_up()
    }
}

} // verus!
