//! The arbitration lock of the card reader and the advisory pause flag.
//!
//! Exactly two kinds of actor compete for the reader: the background poller
//! and foreground writers. A [`ReaderLock`] records which of them, if any,
//! currently owns the device. The poller asks without waiting and skips its
//! cycle when refused; a writer keeps asking until it is let in. The pause
//! flag only tells the poller to stop asking for a while: exclusion never
//! depends on it.

use vstd::prelude::*;
use crate::errors::ErrorKind;

verus! {

/// The two kinds of actor that use the reader.
#[derive(Clone, Copy, Debug, PartialEq, Eq, Structural)]
pub enum Actor {
    /// The background loop that verifies cards.
    Poller,
    /// A foreground workflow that needs the reader for itself.
    Writer,
}

/// What a [`ReaderLock`] stands for: the current owner of the reader and the
/// pause flag.
pub struct LockState {
    pub holder: Option<Actor>,
    pub paused: bool,
}

/// One operation on the lock, as it appears in a history of operations.
pub enum LockOp {
    /// An actor asks for the reader.
    Acquire(Actor),
    /// An actor gives the reader back.
    Release(Actor),
    /// A writer raises the pause flag.
    Pause,
    /// A writer clears the pause flag.
    Resume,
}

impl LockState {
    /// The lock as it is created: nobody owns the reader and the poller may run.
    pub open spec fn idle() -> LockState {
        LockState { holder: None, paused: false }
    }

    /// Whether a request for the reader is granted in this state.
    pub open spec fn grants(self) -> bool {
        self.holder is None
    }

    /// The state after `actor` asked for the reader.
    pub open spec fn acquire(self, actor: Actor) -> LockState {
        if self.grants() {
            LockState { holder: Some(actor), paused: self.paused }
        } else {
            self
        }
    }

    /// The state after `actor` gave the reader back. Only the owner can do so.
    pub open spec fn release(self, actor: Actor) -> LockState {
        if self.holder == Some(actor) {
            LockState { holder: None, paused: self.paused }
        } else {
            self
        }
    }

    /// The state after one operation.
    pub open spec fn apply(self, op: LockOp) -> LockState {
        match op {
            LockOp::Acquire(actor) => self.acquire(actor),
            LockOp::Release(actor) => self.release(actor),
            LockOp::Pause => LockState { holder: self.holder, paused: true },
            LockOp::Resume => LockState { holder: self.holder, paused: false },
        }
    }

    /// The state after the first `n` operations of `ops`.
    pub open spec fn after(self, ops: Seq<LockOp>, n: nat) -> LockState
        decreases n,
    {
        if n == 0 || n > ops.len() {
            self
        } else {
            self.after(ops, (n - 1) as nat).apply(ops[n - 1])
        }
    }
}

/// The arbitration lock of the reader together with the pause flag.
pub struct ReaderLock {
    holder: Option<Actor>,
    paused: bool,
}

impl View for ReaderLock {
    type V = LockState;

    closed spec fn view(&self) -> LockState {
        LockState { holder: self.holder, paused: self.paused }
    }
}

impl ReaderLock {
    /// A lock that nobody holds, with the pause flag cleared.
    pub fn new() -> (lock: ReaderLock)
        ensures
            lock@ == LockState::idle(),
    {
        ReaderLock { holder: None, paused: false }
    }

    /// The actor that owns the reader, if any.
    pub fn holder(&self) -> (holder: Option<Actor>)
        ensures
            holder == self@.holder,
    {
        self.holder
    }

    /// Whether `actor` owns the reader.
    pub fn is_held_by(&self, actor: Actor) -> (held: bool)
        ensures
            held == (self@.holder == Some(actor)),
    {
        match self.holder {
            Some(owner) => owner == actor,
            None => false,
        }
    }

    /// Whether the pause flag is set.
    pub fn is_paused(&self) -> (paused: bool)
        ensures
            paused == self@.paused,
    {
        self.paused
    }

    /// Asks for the reader without waiting.
    ///
    /// The request is granted exactly when nobody owns the reader. A request
    /// that is refused fails with `Busy` and changes nothing.
    pub fn try_acquire(&mut self, actor: Actor) -> (result: Result<(), ErrorKind>)
        ensures
            result is Ok <==> old(self)@.grants(),
            result is Err ==> result == Err::<(), ErrorKind>(ErrorKind::Busy),
            final(self)@ == old(self)@.acquire(actor),
    {
        match self.holder {
            Some(_) => Err(ErrorKind::Busy),
            None => {
                self.holder = Some(actor);
                Ok(())
            },
        }
    }

    /// One attempt of a writer to take the reader for itself.
    ///
    /// A writer that is refused, with `Busy`, asks again until it is let in;
    /// it is let in at once when nobody owns the reader.
    pub fn acquire_exclusive(&mut self) -> (result: Result<(), ErrorKind>)
        ensures
            result is Ok <==> old(self)@.grants(),
            result is Err ==> result == Err::<(), ErrorKind>(ErrorKind::Busy),
            final(self)@ == old(self)@.acquire(Actor::Writer),
    {
        self.try_acquire(Actor::Writer)
    }

    /// Gives the reader back. Returns whether `actor` owned it; if not,
    /// nothing changes.
    pub fn release(&mut self, actor: Actor) -> (released: bool)
        ensures
            released == (old(self)@.holder == Some(actor)),
            final(self)@ == old(self)@.release(actor),
    {
        if self.is_held_by(actor) {
            self.holder = None;
            true
        } else {
            false
        }
    }

    /// Raises the pause flag.
    pub fn pause(&mut self)
        ensures
            final(self)@ == old(self)@.apply(LockOp::Pause),
    {
        self.paused = true;
    }

    /// Clears the pause flag.
    pub fn resume(&mut self)
        ensures
            final(self)@ == old(self)@.apply(LockOp::Resume),
    {
        self.paused = false;
    }
}

/// While one actor owns the reader, every request by anyone is refused and
/// the owner stays the same, however many operations follow, until the owner
/// itself gives the reader back.
pub proof fn lemma_no_grant_while_held(start: LockState, owner: Actor, ops: Seq<LockOp>, n: nat)
    requires
        start.holder == Some(owner),
        n <= ops.len(),
        forall|i: int| 0 <= i < n ==> ops[i] != LockOp::Release(owner),
    ensures
        start.after(ops, n).holder == Some(owner),
        forall|i: int| 0 <= i < n ==> !(#[trigger] start.after(ops, i as nat)).grants(),
    decreases n,
{
    if n > 0 {
        lemma_no_grant_while_held(start, owner, ops, (n - 1) as nat);
        assert(ops[n - 1] != LockOp::Release(owner));
    }
}

/// A request made while nobody owns the reader is granted at once, whatever
/// the pause flag says.
pub proof fn lemma_free_reader_is_granted(state: LockState, actor: Actor)
    requires
        state.holder is None,
    ensures
        state.grants(),
        state.acquire(actor).holder == Some(actor),
        state.acquire(actor).paused == state.paused,
{
}

} // verus!
