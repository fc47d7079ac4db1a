//! The poller and a workflow side by side, sharing one lock.
//!
//! Nothing here runs: this module states what holds of every way in which
//! the steps of the two can follow each other.

use vstd::prelude::*;
use crate::lock::{Actor, LockState};
use crate::poller::{PollEventView, PollerView};
use crate::workflow::{EventView, WorkflowView};

verus! {

/// The poller, a workflow, and the lock that they share.
pub struct Room {
    pub poller: PollerView,
    pub workflow: WorkflowView,
    pub lock: LockState,
}

/// One step of either of the two.
pub enum Turn {
    /// The poller takes a step on this event.
    Poller(PollEventView),
    /// The workflow takes a step on this event, at this time.
    Writer(EventView, Seq<char>),
}

impl Room {
    /// The room after one turn.
    pub open spec fn next(self, turn: Turn) -> Room {
        match turn {
            Turn::Poller(event) => {
                let step = self.poller.step(self.lock, event);
                Room { poller: step.poller, lock: step.lock, ..self }
            },
            Turn::Writer(event, now) => {
                let step = self.workflow.step(self.lock, event, now);
                Room { workflow: step.workflow, lock: step.lock, ..self }
            },
        }
    }

    /// The room after the first `n` of `turns`.
    pub open spec fn after(self, turns: Seq<Turn>, n: nat) -> Room
        decreases n,
    {
        if n == 0 || n > turns.len() {
            self
        } else {
            self.after(turns, (n - 1) as nat).next(turns[n - 1])
        }
    }

    /// Whether the poller owns the reader exactly while it is at work on the
    /// reader, and the workflow is in step with the lock: it owns the reader
    /// while it is at work on it, and at no other time.
    pub open spec fn orderly(self) -> bool {
        &&& self.poller.holds_reader() <==> self.lock.holder == Some(Actor::Poller)
        &&& self.workflow.in_step_with(self.lock)
        &&& self.workflow.holds_reader() <==> self.lock.holder == Some(Actor::Writer)
    }
}

/// A turn of either of the two leaves the room orderly.
pub proof fn lemma_turn_keeps_order(room: Room, turn: Turn)
    requires
        room.orderly(),
    ensures
        room.next(turn).orderly(),
{
}

/// At most one of the two is at work on the reader at any time, whoever is
/// at work on it owns it, and the reader has an owner only while one of the
/// two is at work on it: so whenever neither is, a request for the reader is
/// granted at once. This holds after any sequence of turns, in any order,
/// from a room in which it held. A poller that has just been created and a
/// workflow that has just begun on a free reader make such a room.
pub proof fn lemma_one_at_a_time(room: Room, turns: Seq<Turn>, n: nat)
    requires
        room.orderly(),
        n <= turns.len(),
    ensures
        room.after(turns, n).orderly(),
        !(room.after(turns, n).poller.holds_reader() && room.after(turns, n).workflow.holds_reader()),
        !room.after(turns, n).poller.holds_reader() && !room.after(turns, n).workflow.holds_reader()
            ==> room.after(turns, n).lock.grants(),
    decreases n,
{
    if n > 0 {
        lemma_one_at_a_time(room, turns, (n - 1) as nat);
        lemma_turn_keeps_order(room.after(turns, (n - 1) as nat), turns[n - 1]);
    }
    match room.after(turns, n).lock.holder {
        Some(Actor::Poller) => {},
        Some(Actor::Writer) => {},
        None => {},
    }
}

} // verus!
