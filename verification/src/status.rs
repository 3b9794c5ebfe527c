//! The lifecycle status of a sequencer.

use vstd::prelude::*;

verus! {

/// The four phases of a sequencer's life, in the order in which they are
/// passed through.
#[derive(Clone, Copy, Debug, PartialEq, Eq, Structural)]
pub enum Status {
    /// Replaying the stream to rebuild state; commands are garbage.
    Starting,
    /// Replay has reached a live point; leadership may be sought.
    CaughtUp,
    /// The lease is held; the activation is being written.
    Leader,
    /// The instance's own activation was read back: it is the writer.
    Activated,
}

impl Status {
    /// The position of a status in the lifecycle, from 0 to 3.
    pub open spec fn rank(self) -> nat {
        match self {
            Status::Starting => 0,
            Status::CaughtUp => 1,
            Status::Leader => 2,
            Status::Activated => 3,
        }
    }

    /// The status at a given position, if there is one.
    pub open spec fn at_rank(rank: nat) -> Option<Status> {
        if rank == 0 {
            Some(Status::Starting)
        } else if rank == 1 {
            Some(Status::CaughtUp)
        } else if rank == 2 {
            Some(Status::Leader)
        } else if rank == 3 {
            Some(Status::Activated)
        } else {
            None
        }
    }

    /// The later of two statuses.
    pub open spec fn later(self, other: Status) -> Status {
        if other.rank() > self.rank() {
            other
        } else {
            self
        }
    }

    /// The status as a machine word, fit for an atomic cell.
    pub fn code(self) -> (code: usize)
        ensures
            code == self.rank(),
            Status::at_rank(code as nat) == Some(self),
    {
        match self {
            Status::Starting => 0,
            Status::CaughtUp => 1,
            Status::Leader => 2,
            Status::Activated => 3,
        }
    }

    /// Reads a status back from its machine word; `None` for a word that
    /// encodes none.
    pub fn from_code(code: usize) -> (status: Option<Status>)
        ensures
            status == Status::at_rank(code as nat),
    {
        if code == 0 {
            Some(Status::Starting)
        } else if code == 1 {
            Some(Status::CaughtUp)
        } else if code == 2 {
            Some(Status::Leader)
        } else if code == 3 {
            Some(Status::Activated)
        } else {
            None
        }
    }

    /// Tells whether `self` has come at least as far as `other`.
    pub fn reached(self, other: Status) -> (yes: bool)
        ensures
            yes == (self.rank() >= other.rank()),
    {
        self.code() >= other.code()
    }

    /// Joins two observations of one status cell: the later one stands.
    pub fn merge(self, other: Status) -> (joined: Status)
        ensures
            joined == self.later(other),
    {
        if other.code() > self.code() {
            other
        } else {
            self
        }
    }
}

/// Joining two observations never loses progress: the result is one of the
/// two, and no earlier in the lifecycle than either.
pub proof fn law_later_keeps_order(a: Status, b: Status)
    ensures
        a.later(b) == a || a.later(b) == b,
        a.later(b).rank() >= a.rank(),
        a.later(b).rank() >= b.rank(),
        a.later(a) == a,
{
}

} // verus!
