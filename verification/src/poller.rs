//! The background poller, as a machine that is told what happened and answers
//! what to do next.
//!
//! The poller itself never sleeps, touches the reader or queries the store.
//! Its caller does, one action at a time, and reports the result as the next
//! event. All decisions are taken here: when to ask for the reader, when to
//! skip a cycle, which card counts as already seen, and what is shown.
//!
//! One cycle runs as follows. While the pause flag is set the poller forgets
//! the card it has seen and waits. Otherwise it asks for the reader without
//! waiting and skips the cycle when refused. With the reader in hand it reads
//! the card's UID and gives the reader back. No card: a card seen before is
//! reported as gone, after a grace delay. The same UID as before: nothing to
//! do. A new UID: the poller asks for the reader once more, reads the hash
//! stored on the card, gives the reader back, and has the hash looked up,
//! whatever it is. A record whose stored hash equals the hash read grants
//! access and is noted in the audit log; anything else is an unknown card,
//! a blank card among them. Every cycle ends with a short sleep.

use vstd::prelude::*;
use vstd::string::*;
use crate::lock::{Actor, LockState, ReaderLock};
use crate::records::{CardOwner, OwnerView, text_of};

verus! {

/// Sleep at the end of every cycle, in milliseconds.
pub const POLL_INTERVAL_MS: u64 = 300;

/// Sleep while the pause flag is set, in milliseconds.
pub const PAUSE_INTERVAL_MS: u64 = 1000;

/// Sleep after the reader could not be opened at all, in milliseconds.
pub const UNAVAILABLE_INTERVAL_MS: u64 = 500;

/// Delay before a card that left the reader is reported as gone, in
/// milliseconds.
pub const ABSENT_GRACE_MS: u64 = 2000;

/// Where the poller stands within a cycle.
#[derive(Clone, Copy, Debug, PartialEq, Eq, Structural)]
pub enum PollPhase {
    /// Between cycles.
    Idle,
    /// The reader is held and the UID is being read.
    ReadingUid,
    /// The reader is held and the stored hash is being read.
    ReadingHash,
    /// The hash is being looked up in the store.
    LookingUp,
    /// An outcome is being shown.
    Publishing,
}

/// The result of one verification.
#[derive(Debug, PartialEq, Eq)]
pub enum VerificationOutcome {
    /// The card belongs to this resident.
    Granted(CardOwner),
    /// A card is present that no record vouches for.
    Unknown,
    /// The card that was on the reader is gone.
    Absent,
}

/// What a [`VerificationOutcome`] stands for.
#[verifier::ext_equal]
pub enum OutcomeView {
    Granted(OwnerView),
    Unknown,
    Absent,
}

impl View for VerificationOutcome {
    type V = OutcomeView;

    open spec fn view(&self) -> OutcomeView {
        match self {
            VerificationOutcome::Granted(owner) => OutcomeView::Granted(owner@),
            VerificationOutcome::Unknown => OutcomeView::Unknown,
            VerificationOutcome::Absent => OutcomeView::Absent,
        }
    }
}

/// What the store answered when asked for the card with a given hash.
#[derive(Debug, PartialEq, Eq)]
pub enum Lookup {
    /// A record was found; `stored_hash` is the hash it holds.
    Found { owner: CardOwner, stored_hash: String },
    /// No record has this hash.
    Missing,
    /// The store was in use and was not asked.
    Busy,
}

/// What a [`Lookup`] stands for.
#[verifier::ext_equal]
pub enum LookupView {
    Found { owner: OwnerView, stored_hash: Seq<char> },
    Missing,
    Busy,
}

impl View for Lookup {
    type V = LookupView;

    open spec fn view(&self) -> LookupView {
        match self {
            Lookup::Found { owner, stored_hash } => LookupView::Found {
                owner: owner@,
                stored_hash: stored_hash@,
            },
            Lookup::Missing => LookupView::Missing,
            Lookup::Busy => LookupView::Busy,
        }
    }
}

/// What the caller reports to the poller.
#[derive(Debug, PartialEq, Eq)]
pub enum PollEvent {
    /// A sleep is over, or the poller has just been started.
    Wake,
    /// The reader could not be opened.
    Unavailable,
    /// The UID was read (`Some`), or no card answered (`None`).
    Uid(Option<String>),
    /// The stored hash was read (`Some`), or reading failed (`None`).
    Hash(Option<String>),
    /// The store answered.
    Record(Lookup),
    /// The outcome has been shown.
    Shown,
}

/// What a [`PollEvent`] stands for.
#[verifier::ext_equal]
pub enum PollEventView {
    Wake,
    Unavailable,
    Uid(Option<Seq<char>>),
    Hash(Option<Seq<char>>),
    Record(LookupView),
    Shown,
}

impl View for PollEvent {
    type V = PollEventView;

    open spec fn view(&self) -> PollEventView {
        match self {
            PollEvent::Wake => PollEventView::Wake,
            PollEvent::Unavailable => PollEventView::Unavailable,
            PollEvent::Uid(reading) => PollEventView::Uid(text_of(*reading)),
            PollEvent::Hash(reading) => PollEventView::Hash(text_of(*reading)),
            PollEvent::Record(found) => PollEventView::Record(found@),
            PollEvent::Shown => PollEventView::Shown,
        }
    }
}

/// What the poller asks its caller to do.
#[derive(Debug, PartialEq, Eq)]
pub enum PollAction {
    /// Sleep, then report `Wake`.
    Sleep { millis: u64 },
    /// Read the UID of the card on the reader, then report `Uid`, or
    /// `Unavailable` when the reader cannot be opened. The poller holds the
    /// reader.
    ReadUid,
    /// Read the hash stored on the card, then report `Hash`. The poller holds
    /// the reader.
    ReadHash,
    /// Ask the store, without waiting for it, for the card with this hash,
    /// then report `Record`.
    FindCard { hash: String },
    /// Wait `delay_millis`, show `outcome`, and, where `audit` holds a text,
    /// try to append it to the audit log without waiting for the store; then
    /// report `Shown`.
    Publish { outcome: VerificationOutcome, delay_millis: u64, audit: Option<String> },
}

/// What a [`PollAction`] stands for.
#[verifier::ext_equal]
pub enum PollActionView {
    Sleep { millis: u64 },
    ReadUid,
    ReadHash,
    FindCard { hash: Seq<char> },
    Publish { outcome: OutcomeView, delay_millis: u64, audit: Option<Seq<char>> },
}

impl View for PollAction {
    type V = PollActionView;

    open spec fn view(&self) -> PollActionView {
        match self {
            PollAction::Sleep { millis } => PollActionView::Sleep { millis: *millis },
            PollAction::ReadUid => PollActionView::ReadUid,
            PollAction::ReadHash => PollActionView::ReadHash,
            PollAction::FindCard { hash } => PollActionView::FindCard { hash: hash@ },
            PollAction::Publish { outcome, delay_millis, audit } => PollActionView::Publish {
                outcome: outcome@,
                delay_millis: *delay_millis,
                audit: text_of(*audit),
            },
        }
    }
}

impl PollActionView {
    /// Whether this action uses the reader.
    pub open spec fn uses_reader(self) -> bool {
        self is ReadUid || self is ReadHash
    }

    /// Whether this action shows the result of verifying a card that is
    /// present: access granted, or card unknown.
    pub open spec fn shows_verification(self) -> bool {
        self matches PollActionView::Publish { outcome, .. } && !(outcome is Absent)
    }
}

/// The line that the audit log gets when access is granted.
pub open spec fn granted_audit_text(owner: OwnerView) -> Seq<char> {
    "Access granted: "@ + owner.first_name + " "@ + owner.last_name + " (Apt: "@ + owner.apt
        + ")"@
}

/// What a [`Poller`] stands for.
#[verifier::ext_equal]
pub struct PollerView {
    /// Where the poller stands within its cycle.
    pub phase: PollPhase,
    /// The UID of the card that was last seen on the reader.
    pub last_uid: Option<Seq<char>>,
    /// The UID of the card under verification.
    pub pending_uid: Seq<char>,
    /// The hash read from the card under verification.
    pub pending_hash: Seq<char>,
}

/// The result of one step: the poller and the lock afterwards, and the action
/// asked for.
#[verifier::ext_equal]
pub struct PollStep {
    pub poller: PollerView,
    pub lock: LockState,
    pub action: PollActionView,
}

impl PollerView {
    /// A poller that has seen no card and stands between cycles.
    pub open spec fn fresh() -> PollerView {
        PollerView {
            phase: PollPhase::Idle,
            last_uid: None,
            pending_uid: Seq::empty(),
            pending_hash: Seq::empty(),
        }
    }

    /// Whether the poller believes that it holds the reader.
    pub open spec fn holds_reader(self) -> bool {
        self.phase == PollPhase::ReadingUid || self.phase == PollPhase::ReadingHash
    }

    /// The end of a cycle: back between cycles after a sleep of `millis`.
    pub open spec fn rest(self, lock: LockState, millis: u64) -> PollStep {
        PollStep {
            poller: PollerView { phase: PollPhase::Idle, ..self },
            lock,
            action: PollActionView::Sleep { millis },
        }
    }

    /// The cycle goes on with `action`, in `phase`.
    pub open spec fn proceed(self, lock: LockState, phase: PollPhase, action: PollActionView)
        -> PollStep {
        PollStep { poller: PollerView { phase, ..self }, lock, action }
    }

    /// The start of a cycle.
    pub open spec fn begin_cycle(self, lock: LockState) -> PollStep {
        if lock.paused {
            PollerView { last_uid: None, ..self }.rest(lock, PAUSE_INTERVAL_MS)
        } else if lock.grants() {
            self.proceed(
                lock.acquire(Actor::Poller),
                PollPhase::ReadingUid,
                PollActionView::ReadUid,
            )
        } else {
            self.rest(lock, POLL_INTERVAL_MS)
        }
    }

    /// The UID has been read, or no card answered. `lock` is the lock after
    /// the poller gave the reader back.
    pub open spec fn on_uid(self, lock: LockState, reading: Option<Seq<char>>) -> PollStep {
        match reading {
            None => if self.last_uid is Some {
                PollerView { last_uid: None, ..self }.proceed(
                    lock,
                    PollPhase::Publishing,
                    PollActionView::Publish {
                        outcome: OutcomeView::Absent,
                        delay_millis: ABSENT_GRACE_MS,
                        audit: None,
                    },
                )
            } else {
                self.rest(lock, POLL_INTERVAL_MS)
            },
            Some(uid) => if self.last_uid == Some(uid) {
                self.rest(lock, POLL_INTERVAL_MS)
            } else if lock.grants() {
                PollerView { pending_uid: uid, ..self }.proceed(
                    lock.acquire(Actor::Poller),
                    PollPhase::ReadingHash,
                    PollActionView::ReadHash,
                )
            } else {
                PollerView { last_uid: Some(uid), ..self }.rest(lock, POLL_INTERVAL_MS)
            },
        }
    }

    /// The stored hash has been read, or reading failed. `lock` is the lock
    /// after the poller gave the reader back.
    ///
    /// Every hash that was read is looked up, the empty hash of a blank card
    /// too: no record holds it, so that such a card is shown as unknown. A
    /// card whose hash could not be read is remembered and nothing is shown
    /// for it.
    pub open spec fn on_hash(self, lock: LockState, reading: Option<Seq<char>>) -> PollStep {
        match reading {
            Some(hash) => PollerView { pending_hash: hash, ..self }.proceed(
                lock,
                PollPhase::LookingUp,
                PollActionView::FindCard { hash },
            ),
            None => PollerView { last_uid: Some(self.pending_uid), ..self }.rest(
                lock,
                POLL_INTERVAL_MS,
            ),
        }
    }

    /// The store has answered. The card is remembered whatever the answer.
    pub open spec fn on_record(self, lock: LockState, found: LookupView) -> PollStep {
        let seen = PollerView { last_uid: Some(self.pending_uid), ..self };
        match found {
            LookupView::Busy => seen.rest(lock, POLL_INTERVAL_MS),
            LookupView::Found { owner, stored_hash } if stored_hash == self.pending_hash =>
                seen.proceed(
                lock,
                PollPhase::Publishing,
                PollActionView::Publish {
                    outcome: OutcomeView::Granted(owner),
                    delay_millis: 0,
                    audit: Some(granted_audit_text(owner)),
                },
            ),
            _ => seen.proceed(
                lock,
                PollPhase::Publishing,
                PollActionView::Publish {
                    outcome: OutcomeView::Unknown,
                    delay_millis: 0,
                    audit: None,
                },
            ),
        }
    }

    /// One step of the poller.
    ///
    /// An event that does not answer the action last asked for ends the
    /// cycle: the reader is given back if the poller held it, and the poller
    /// sleeps.
    pub open spec fn step(self, lock: LockState, event: PollEventView) -> PollStep {
        match (self.phase, event) {
            (PollPhase::Idle, PollEventView::Wake) => self.begin_cycle(lock),
            (PollPhase::ReadingUid, PollEventView::Uid(reading)) => self.on_uid(
                lock.release(Actor::Poller),
                reading,
            ),
            (PollPhase::ReadingUid, PollEventView::Unavailable) => self.rest(
                lock.release(Actor::Poller),
                UNAVAILABLE_INTERVAL_MS,
            ),
            (PollPhase::ReadingHash, PollEventView::Hash(reading)) => self.on_hash(
                lock.release(Actor::Poller),
                reading,
            ),
            (PollPhase::LookingUp, PollEventView::Record(found)) => self.on_record(lock, found),
            (PollPhase::Publishing, PollEventView::Shown) => self.rest(lock, POLL_INTERVAL_MS),
            _ => self.rest(
                if self.holds_reader() {
                    lock.release(Actor::Poller)
                } else {
                    lock
                },
                POLL_INTERVAL_MS,
            ),
        }
    }
}

/// One observation of a run: the lock as the poller finds it when it takes the
/// step, and the event reported to it.
pub struct PollInput {
    pub lock: LockState,
    pub event: PollEventView,
}

impl PollerView {
    /// The poller after the first `n` observations of `inputs`.
    pub open spec fn after(self, inputs: Seq<PollInput>, n: nat) -> PollerView
        decreases n,
    {
        if n == 0 || n > inputs.len() {
            self
        } else {
            let before = self.after(inputs, (n - 1) as nat);
            before.step(inputs[n - 1].lock, inputs[n - 1].event).poller
        }
    }

    /// The action that the poller asks for in answer to observation `i`.
    pub open spec fn action_at(self, inputs: Seq<PollInput>, i: nat) -> PollActionView {
        self.after(inputs, i).step(inputs[i as int].lock, inputs[i as int].event).action
    }

    /// The poller remembers the card `uid` and is not verifying any card.
    pub open spec fn settled_on(self, uid: Seq<char>) -> bool {
        &&& self.last_uid == Some(uid)
        &&& self.phase != PollPhase::ReadingHash
        &&& self.phase != PollPhase::LookingUp
    }

    /// The observation leaves the card `uid` where it is: a UID that is read
    /// is `uid`, and the poller is not made to forget the card by the pause
    /// flag.
    pub open spec fn keeps_card(self, input: PollInput, uid: Seq<char>) -> bool {
        &&& !(self.phase == PollPhase::Idle && input.event is Wake && input.lock.paused)
        &&& self.phase == PollPhase::ReadingUid ==> (input.event matches PollEventView::Uid(
            reading,
        ) ==> reading == Some(uid))
    }
}

/// Showing the result of a verification leaves the poller settled on the card
/// that was verified.
pub proof fn lemma_verification_settles(poller: PollerView, lock: LockState, event: PollEventView)
    requires
        poller.step(lock, event).action.shows_verification(),
    ensures
        poller.phase == PollPhase::LookingUp,
        poller.step(lock, event).poller.settled_on(poller.pending_uid),
        poller.step(lock, event).poller.pending_uid == poller.pending_uid,
{
}

/// A poller that is settled on a card stays so, and shows no verification, as
/// long as the card stays where it is.
pub proof fn lemma_settled_stays(
    poller: PollerView,
    lock: LockState,
    event: PollEventView,
    uid: Seq<char>,
)
    requires
        poller.settled_on(uid),
        poller.keeps_card(PollInput { lock, event }, uid),
    ensures
        poller.step(lock, event).poller.settled_on(uid),
        !poller.step(lock, event).action.shows_verification(),
{
}

/// A card whose hash was read is judged as soon as the store answers: it is
/// granted exactly when the store holds a record whose hash is the hash read,
/// with the owner of that record, and is shown as unknown otherwise. The card
/// is remembered in both cases. The hash may be any text, the empty one too.
pub proof fn lemma_read_hash_is_judged(
    poller: PollerView,
    lock: LockState,
    hash: Seq<char>,
    found: LookupView,
)
    requires
        poller.phase == PollPhase::ReadingHash,
        !(found is Busy),
    ensures
        ({
            let read = poller.step(lock, PollEventView::Hash(Some(hash)));
            let judged = read.poller.step(read.lock, PollEventView::Record(found));
            &&& read.action == (PollActionView::FindCard { hash })
            &&& judged.poller.last_uid == Some(poller.pending_uid)
            &&& judged.action matches PollActionView::Publish { outcome, .. }
            &&& match found {
                LookupView::Found { owner, stored_hash } if stored_hash == hash => outcome
                    == OutcomeView::Granted(owner),
                _ => outcome == OutcomeView::Unknown,
            }
        }),
{
}

/// A poller that is settled on a card reports the card as gone as soon as a
/// read of the UID finds no card.
pub proof fn lemma_absence_is_shown(poller: PollerView, lock: LockState, uid: Seq<char>)
    requires
        poller.settled_on(uid),
        poller.phase == PollPhase::ReadingUid,
    ensures
        poller.step(lock, PollEventView::Uid(None)).action matches PollActionView::Publish {
            outcome,
            ..
        } && outcome is Absent,
        poller.step(lock, PollEventView::Uid(None)).poller.last_uid is None,
{
}

/// After a verification has been shown at observation `i`, the poller is
/// settled on the verified card at every later point `k` up to which the card
/// stayed where it was.
proof fn lemma_settled_since(start: PollerView, inputs: Seq<PollInput>, i: nat, k: nat)
    requires
        i < k <= inputs.len(),
        start.action_at(inputs, i).shows_verification(),
        forall|m: nat|
            i < m < k ==> (#[trigger] start.after(inputs, m)).keeps_card(
                inputs[m as int],
                start.after(inputs, i).pending_uid,
            ),
    ensures
        start.after(inputs, k).settled_on(start.after(inputs, i).pending_uid),
    decreases k,
{
    let uid = start.after(inputs, i).pending_uid;
    let before = start.after(inputs, (k - 1) as nat);
    let input = inputs[k - 1];
    if k == i + 1 {
        lemma_verification_settles(before, input.lock, input.event);
    } else {
        lemma_settled_since(start, inputs, i, (k - 1) as nat);
        assert(before.keeps_card(inputs[k - 1], uid));
        lemma_settled_stays(before, input.lock, input.event, uid);
    }
}

/// The poller never shows two verifications in a row for a card that stayed
/// on the reader: once the result for a card has been shown at observation
/// `i`, no later observation `j` leads to another result, as long as every
/// UID read in between is that of the same card and the pause flag did not
/// make the poller forget it. In between lies, otherwise, a read that found no
/// card (shown as `Absent`), another card, or a pause.
pub proof fn lemma_no_repeated_verification(
    start: PollerView,
    inputs: Seq<PollInput>,
    i: nat,
    j: nat,
)
    requires
        i < j < inputs.len(),
        start.action_at(inputs, i).shows_verification(),
        forall|m: nat|
            i < m <= j ==> (#[trigger] start.after(inputs, m)).keeps_card(
                inputs[m as int],
                start.after(inputs, i).pending_uid,
            ),
    ensures
        !start.action_at(inputs, j).shows_verification(),
{
    let uid = start.after(inputs, i).pending_uid;
    lemma_settled_since(start, inputs, i, j);
    let before = start.after(inputs, j);
    assert(before.keeps_card(inputs[j as int], uid));
    lemma_settled_stays(before, inputs[j as int].lock, inputs[j as int].event, uid);
}

/// The background poller.
#[derive(Debug)]
pub struct Poller {
    phase: PollPhase,
    last_uid: Option<String>,
    pending_uid: String,
    pending_hash: String,
}

impl View for Poller {
    type V = PollerView;

    closed spec fn view(&self) -> PollerView {
        PollerView {
            phase: self.phase,
            last_uid: text_of(self.last_uid),
            pending_uid: self.pending_uid@,
            pending_hash: self.pending_hash@,
        }
    }
}

impl Poller {
    /// A poller that has seen no card. Start it with `PollEvent::Wake`.
    pub fn new() -> (poller: Poller)
        ensures
            poller@ == PollerView::fresh(),
    {
        Poller {
            phase: PollPhase::Idle,
            last_uid: None,
            pending_uid: String::new(),
            pending_hash: String::new(),
        }
    }

    /// Where the poller stands within its cycle.
    pub fn phase(&self) -> (phase: PollPhase)
        ensures
            phase == self@.phase,
    {
        self.phase
    }

    /// The UID of the card that was last seen on the reader.
    pub fn last_uid(&self) -> (uid: Option<String>)
        ensures
            text_of(uid) == self@.last_uid,
    {
        match &self.last_uid {
            Some(uid) => Some(uid.clone()),
            None => None,
        }
    }

    /// Takes one step: given what happened, decides what to do next.
    ///
    /// The poller asks for the reader only through `lock`, and asks its
    /// caller to use the reader only when `lock` has just granted it.
    pub fn step(&mut self, lock: &mut ReaderLock, event: PollEvent) -> (action: PollAction)
        ensures
            final(self)@ == old(self)@.step(old(lock)@, event@).poller,
            final(lock)@ == old(self)@.step(old(lock)@, event@).lock,
            action@ == old(self)@.step(old(lock)@, event@).action,
            action@.uses_reader() ==> final(lock)@.holder == Some(Actor::Poller),
            action@ matches PollActionView::Publish { outcome, audit, .. } ==> (audit is Some
                <==> outcome is Granted),
    {
        match (self.phase, event) {
            (PollPhase::Idle, PollEvent::Wake) => self.begin_cycle(lock),
            (PollPhase::ReadingUid, PollEvent::Uid(reading)) => {
                lock.release(Actor::Poller);
                self.on_uid(lock, reading)
            },
            (PollPhase::ReadingUid, PollEvent::Unavailable) => {
                lock.release(Actor::Poller);
                self.rest(UNAVAILABLE_INTERVAL_MS)
            },
            (PollPhase::ReadingHash, PollEvent::Hash(reading)) => {
                lock.release(Actor::Poller);
                self.on_hash(reading)
            },
            (PollPhase::LookingUp, PollEvent::Record(found)) => self.on_record(found),
            (PollPhase::Publishing, PollEvent::Shown) => self.rest(POLL_INTERVAL_MS),
            _ => {
                if self.phase == PollPhase::ReadingUid || self.phase == PollPhase::ReadingHash {
                    lock.release(Actor::Poller);
                }
                self.rest(POLL_INTERVAL_MS)
            },
        }
    }

    fn rest(&mut self, millis: u64) -> (action: PollAction)
        ensures
            final(self)@ == (PollerView { phase: PollPhase::Idle, ..old(self)@ }),
            action@ == (PollActionView::Sleep { millis }),
    {
        self.phase = PollPhase::Idle;
        PollAction::Sleep { millis }
    }

    fn begin_cycle(&mut self, lock: &mut ReaderLock) -> (action: PollAction)
        ensures
            final(self)@ == old(self)@.begin_cycle(old(lock)@).poller,
            final(lock)@ == old(self)@.begin_cycle(old(lock)@).lock,
            action@ == old(self)@.begin_cycle(old(lock)@).action,
    {
        if lock.is_paused() {
            self.last_uid = None;
            self.rest(PAUSE_INTERVAL_MS)
        } else if lock.try_acquire(Actor::Poller).is_ok() {
            self.phase = PollPhase::ReadingUid;
            PollAction::ReadUid
        } else {
            self.rest(POLL_INTERVAL_MS)
        }
    }

    fn on_uid(&mut self, lock: &mut ReaderLock, reading: Option<String>) -> (action: PollAction)
        ensures
            final(self)@ == old(self)@.on_uid(old(lock)@, text_of(reading)).poller,
            final(lock)@ == old(self)@.on_uid(old(lock)@, text_of(reading)).lock,
            action@ == old(self)@.on_uid(old(lock)@, text_of(reading)).action,
    {
        match reading {
            None => {
                if self.last_uid.is_some() {
                    self.last_uid = None;
                    self.phase = PollPhase::Publishing;
                    PollAction::Publish {
                        outcome: VerificationOutcome::Absent,
                        delay_millis: ABSENT_GRACE_MS,
                        audit: None,
                    }
                } else {
                    self.rest(POLL_INTERVAL_MS)
                }
            },
            Some(uid) => {
                let unchanged = match &self.last_uid {
                    Some(last) => *last == uid,
                    None => false,
                };
                if unchanged {
                    self.rest(POLL_INTERVAL_MS)
                } else if lock.try_acquire(Actor::Poller).is_ok() {
                    self.pending_uid = uid;
                    self.phase = PollPhase::ReadingHash;
                    PollAction::ReadHash
                } else {
                    self.last_uid = Some(uid);
                    self.rest(POLL_INTERVAL_MS)
                }
            },
        }
    }

    fn on_hash(&mut self, reading: Option<String>) -> (action: PollAction)
        ensures
            forall|lock: LockState|
                final(self)@ == (#[trigger] old(self)@.on_hash(lock, text_of(reading))).poller,
            forall|lock: LockState|
                action@ == (#[trigger] old(self)@.on_hash(lock, text_of(reading))).action,
    {
        match reading {
            Some(hash) => {
                self.pending_hash = hash.clone();
                self.phase = PollPhase::LookingUp;
                PollAction::FindCard { hash }
            },
            None => {
                self.last_uid = Some(self.pending_uid.clone());
                self.rest(POLL_INTERVAL_MS)
            },
        }
    }

    fn on_record(&mut self, found: Lookup) -> (action: PollAction)
        ensures
            forall|lock: LockState|
                final(self)@ == (#[trigger] old(self)@.on_record(lock, found@)).poller,
            forall|lock: LockState|
                action@ == (#[trigger] old(self)@.on_record(lock, found@)).action,
    {
        self.last_uid = Some(self.pending_uid.clone());
        match found {
            Lookup::Busy => self.rest(POLL_INTERVAL_MS),
            Lookup::Found { owner, stored_hash } => {
                if stored_hash == self.pending_hash {
                    let audit = granted_audit(&owner);
                    self.phase = PollPhase::Publishing;
                    PollAction::Publish {
                        outcome: VerificationOutcome::Granted(owner),
                        delay_millis: 0,
                        audit: Some(audit),
                    }
                } else {
                    self.unknown_card()
                }
            },
            Lookup::Missing => self.unknown_card(),
        }
    }

    fn unknown_card(&mut self) -> (action: PollAction)
        ensures
            final(self)@ == (PollerView { phase: PollPhase::Publishing, ..old(self)@ }),
            action@ == (PollActionView::Publish {
                outcome: OutcomeView::Unknown,
                delay_millis: 0,
                audit: None,
            }),
    {
        self.phase = PollPhase::Publishing;
        PollAction::Publish { outcome: VerificationOutcome::Unknown, delay_millis: 0, audit: None }
    }
}

/// Builds the line that the audit log gets when access is granted.
pub fn granted_audit(owner: &CardOwner) -> (text: String)
    ensures
        text@ == granted_audit_text(owner@),
{
    let mut text = String::from_str("Access granted: ");
    text.append(owner.first_name.as_str());
    text.append(" ");
    text.append(owner.last_name.as_str());
    text.append(" (Apt: ");
    text.append(owner.apt.as_str());
    text.append(")");
    text
}

} // verus!
