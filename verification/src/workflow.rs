//! The foreground workflows that need the reader for themselves.
//!
//! Two workflows exist. *Link* binds a card to a resident: it waits for a
//! card, computes the card's identity hash, writes it to the card and then
//! has the card recorded. *Collect* hands out packages: it waits for a card,
//! reads the hash stored on it, has the owner of that card and the packages
//! looked up, judges each package, has those that were handed out marked as
//! collected, and ends with the report of the batch.
//!
//! Both follow the same discipline. The workflow raises the pause flag, then
//! takes the reader, waiting for as long as it takes. It keeps the reader
//! for all of its work on the device. It gives the reader back and clears
//! the pause flag before anything is stored, and on every failure. A
//! [`Workflow`] takes these decisions; its caller carries out one action at
//! a time and reports what came of it.

use vstd::prelude::*;
use vstd::string::*;
use crate::clock::local_time;
use crate::codec::{NFCCardData, NFCCardView};
use crate::collect::{
    batch_report, collect_selected_at, requests_of, resident_of, CollectReport, ReportView,
    Requested, RequestedView,
};
use crate::errors::ErrorKind;
use crate::lock::{Actor, LockOp, LockState, ReaderLock};
use crate::records::{ResidentData, ResidentView};
use crate::text::{decimal_text, push_count, push_decimal};
use crate::write::WriteOutcome;

verus! {

/// How long a workflow waits for a card, in seconds.
pub const CARD_TIMEOUT_SECS: u64 = 15;

/// Pause before the reader is reset, so that whoever held it has let go of
/// the device, in milliseconds.
pub const RESET_LEAD_MS: u64 = 1500;

/// Pause after the reader is reset, in milliseconds.
pub const RESET_TAIL_MS: u64 = 500;

/// How many characters of a hash the audit log shows.
pub const HASH_SHOWN: usize = 16;

/// The two workflows.
#[derive(Clone, Copy, Debug, PartialEq, Eq, Structural)]
pub enum WorkflowKind {
    /// Bind a card to a resident.
    Link,
    /// Hand out packages to the owner of a card.
    Collect,
}

/// Where a workflow stands.
#[derive(Clone, Copy, Debug, PartialEq, Eq, Structural)]
pub enum WorkflowPhase {
    /// Waiting for the reader. The pause flag is raised.
    Acquiring,
    /// The reader is held and is being reset.
    Resetting,
    /// The reader is held and a card is awaited.
    WaitingForCard,
    /// The reader is held and the hash is being written to the card.
    Writing,
    /// The reader is held and the hash is being read from the card.
    ReadingHash,
    /// The reader has been given back, and the owner of the card and the
    /// packages are being looked up in the store.
    LookingUp,
    /// The reader has been given back and the result is being stored.
    Persisting,
    /// The workflow is over.
    Done,
}

/// How a workflow ended.
#[derive(Debug, PartialEq, Eq)]
pub enum WorkflowOutcome {
    /// The card was linked, and that was stored.
    Completed,
    /// The batch was judged, and what was handed out was stored. The report
    /// holds the outcome for each package and the number handed out.
    Collected(CollectReport),
    /// The workflow was given up for this reason; nothing was stored.
    Failed(ErrorKind),
    /// The work on the card was done, but the store refused the result. The
    /// text is what the store said.
    StoreFailed(String),
}

/// What a [`WorkflowOutcome`] stands for.
#[verifier::ext_equal]
pub enum OutcomeView {
    Completed,
    Collected(ReportView),
    Failed(ErrorKind),
    StoreFailed(Seq<char>),
}

impl View for WorkflowOutcome {
    type V = OutcomeView;

    open spec fn view(&self) -> OutcomeView {
        match self {
            WorkflowOutcome::Completed => OutcomeView::Completed,
            WorkflowOutcome::Collected(report) => OutcomeView::Collected(report@),
            WorkflowOutcome::Failed(kind) => OutcomeView::Failed(*kind),
            WorkflowOutcome::StoreFailed(message) => OutcomeView::StoreFailed(message@),
        }
    }
}

/// What is reported to a workflow.
#[derive(Debug, PartialEq, Eq)]
pub enum WorkflowEvent {
    /// The reader may be free now.
    Retry,
    /// The reader has been reset, as far as that was possible.
    ResetDone,
    /// A card is on the reader.
    CardFound { uid: String },
    /// The write of the hash is over.
    Written(WriteOutcome),
    /// The hash has been read from the card.
    HashRead { hash: String },
    /// The store has been asked: `owner` is the resident whose card holds the
    /// hash, and `requests` holds, for each package asked for, what the store
    /// has under its number; either is missing where the store has no such
    /// record.
    PackagesFound { owner: Option<ResidentData>, requests: Vec<Requested> },
    /// The result has been stored.
    Stored,
    /// The store refused the result, with this message.
    StoreRefused(String),
    /// The action on the reader failed.
    Failed(ErrorKind),
}

/// What a [`WorkflowEvent`] stands for.
#[verifier::ext_equal]
pub enum EventView {
    Retry,
    ResetDone,
    CardFound { uid: Seq<char> },
    Written(WriteOutcome),
    HashRead { hash: Seq<char> },
    PackagesFound { owner: Option<ResidentView>, requests: Seq<RequestedView> },
    Stored,
    StoreRefused(Seq<char>),
    Failed(ErrorKind),
}

impl View for WorkflowEvent {
    type V = EventView;

    open spec fn view(&self) -> EventView {
        match self {
            WorkflowEvent::Retry => EventView::Retry,
            WorkflowEvent::ResetDone => EventView::ResetDone,
            WorkflowEvent::CardFound { uid } => EventView::CardFound { uid: uid@ },
            WorkflowEvent::Written(outcome) => EventView::Written(*outcome),
            WorkflowEvent::HashRead { hash } => EventView::HashRead { hash: hash@ },
            WorkflowEvent::PackagesFound { owner, requests } => EventView::PackagesFound {
                owner: resident_of(*owner),
                requests: requests_of(requests@),
            },
            WorkflowEvent::Stored => EventView::Stored,
            WorkflowEvent::StoreRefused(message) => EventView::StoreRefused(message@),
            WorkflowEvent::Failed(kind) => EventView::Failed(*kind),
        }
    }
}

/// What a workflow asks for.
#[derive(Debug, PartialEq, Eq)]
pub enum WorkflowAction {
    /// Wait until the reader may be free, then report `Retry`.
    AwaitReader,
    /// Wait `lead_millis`, reset the reader, wait `tail_millis`, then report
    /// `ResetDone`; report `Failed` if there is no reader to use.
    ResetReader { lead_millis: u64, tail_millis: u64 },
    /// Wait for a card for at most `timeout_secs`, then report `CardFound`,
    /// or `Failed`.
    WaitForCard { timeout_secs: u64 },
    /// Write `hash` to the card, then report `Written`.
    WriteHash { hash: String },
    /// Read the hash stored on the card, then report `HashRead`, or `Failed`.
    ReadHash,
    /// Record the card with this hash for the resident, mark the resident as
    /// linked and append `audit` to the audit log; then report `Stored` or
    /// `StoreRefused`.
    SaveCard { resident_id: u32, apt: String, added_date: String, hash: String, audit: String },
    /// Ask the store for the resident whose card holds this hash and for the
    /// packages with these numbers; then report `PackagesFound`, or
    /// `StoreRefused` where the store could not be asked.
    FindPackages { card_hash: String, package_ids: Vec<u32> },
    /// Store every package that the report shows as handed out, with its
    /// time of collection and its line for the audit log; then report
    /// `Stored` or `StoreRefused`.
    StoreCollected { report: CollectReport },
    /// Nothing more: the workflow is over.
    Finish(WorkflowOutcome),
}

/// What a [`WorkflowAction`] stands for.
#[verifier::ext_equal]
pub enum ActionView {
    AwaitReader,
    ResetReader { lead_millis: u64, tail_millis: u64 },
    WaitForCard { timeout_secs: u64 },
    WriteHash { hash: Seq<char> },
    ReadHash,
    SaveCard {
        resident_id: u32,
        apt: Seq<char>,
        added_date: Seq<char>,
        hash: Seq<char>,
        audit: Seq<char>,
    },
    FindPackages { card_hash: Seq<char>, package_ids: Seq<u32> },
    StoreCollected { report: ReportView },
    Finish(OutcomeView),
}

impl View for WorkflowAction {
    type V = ActionView;

    open spec fn view(&self) -> ActionView {
        match self {
            WorkflowAction::AwaitReader => ActionView::AwaitReader,
            WorkflowAction::ResetReader { lead_millis, tail_millis } => ActionView::ResetReader {
                lead_millis: *lead_millis,
                tail_millis: *tail_millis,
            },
            WorkflowAction::WaitForCard { timeout_secs } => ActionView::WaitForCard {
                timeout_secs: *timeout_secs,
            },
            WorkflowAction::WriteHash { hash } => ActionView::WriteHash { hash: hash@ },
            WorkflowAction::ReadHash => ActionView::ReadHash,
            WorkflowAction::SaveCard { resident_id, apt, added_date, hash, audit } =>
                ActionView::SaveCard {
                resident_id: *resident_id,
                apt: apt@,
                added_date: added_date@,
                hash: hash@,
                audit: audit@,
            },
            WorkflowAction::FindPackages { card_hash, package_ids } => ActionView::FindPackages {
                card_hash: card_hash@,
                package_ids: package_ids@,
            },
            WorkflowAction::StoreCollected { report } => ActionView::StoreCollected {
                report: report@,
            },
            WorkflowAction::Finish(outcome) => ActionView::Finish(outcome@),
        }
    }
}

impl ActionView {
    /// Whether this action uses the reader.
    pub open spec fn uses_reader(self) -> bool {
        self is ResetReader || self is WaitForCard || self is WriteHash || self is ReadHash
    }

    /// Whether this action reads or changes the store.
    pub open spec fn uses_store(self) -> bool {
        self is SaveCard || self is FindPackages || self is StoreCollected
    }
}

/// The line that the audit log gets when a card is linked. Of the hash it
/// shows the first [`HASH_SHOWN`] characters.
pub open spec fn link_audit_text(uid: Seq<char>, hash: Seq<char>, resident_id: u32, apt: Seq<char>)
    -> Seq<char> {
    "Card linked: UID="@ + uid + ", Hash="@ + hash.take(
        if hash.len() < HASH_SHOWN {
            hash.len() as int
        } else {
            HASH_SHOWN as int
        },
    ) + ", Resident ID="@ + decimal_text(resident_id as nat) + ", Apt="@ + apt
}

/// What a [`Workflow`] stands for.
#[verifier::ext_equal]
pub struct WorkflowView {
    pub kind: WorkflowKind,
    pub phase: WorkflowPhase,
    /// The resident to whom the card is linked.
    pub resident_id: u32,
    /// The apartment of that resident.
    pub apt: Seq<char>,
    /// The packages to hand out.
    pub package_ids: Seq<u32>,
    /// The UID of the card found.
    pub uid: Seq<char>,
    /// The time that the workflow last took from the clock: for a link the
    /// time at which its card was found, which is the card's date of issue;
    /// for a collection the time at which the packages were handed out.
    pub added_date: Seq<char>,
    /// The hash written to the card, or read from it.
    pub hash: Seq<char>,
    /// What came of the batch, once it has been judged.
    pub report: ReportView,
    /// How the workflow ended, once it is over.
    pub outcome: OutcomeView,
}

/// The result of one step: the workflow and the lock afterwards.
#[verifier::ext_equal]
pub struct WorkflowStep {
    pub workflow: WorkflowView,
    pub lock: LockState,
}

impl WorkflowView {
    /// A workflow of `kind` before it has asked for the reader.
    pub open spec fn prepared(
        kind: WorkflowKind,
        resident_id: u32,
        apt: Seq<char>,
        package_ids: Seq<u32>,
    ) -> WorkflowView {
        WorkflowView {
            kind,
            phase: WorkflowPhase::Acquiring,
            resident_id,
            apt,
            package_ids,
            uid: Seq::empty(),
            added_date: Seq::empty(),
            hash: Seq::empty(),
            report: ReportView::nothing(),
            outcome: OutcomeView::Completed,
        }
    }

    /// Whether the workflow is at work on the reader, and so must hold it.
    pub open spec fn holds_reader(self) -> bool {
        ||| self.phase == WorkflowPhase::Resetting
        ||| self.phase == WorkflowPhase::WaitingForCard
        ||| self.phase == WorkflowPhase::Writing
        ||| self.phase == WorkflowPhase::ReadingHash
    }

    /// Whether the workflow is in a phase of its own kind: only a link
    /// resets the reader and writes, only a collection reads the hash and
    /// looks up packages.
    pub open spec fn coherent(self) -> bool {
        match self.kind {
            WorkflowKind::Link => self.phase != WorkflowPhase::ReadingHash && self.phase
                != WorkflowPhase::LookingUp,
            WorkflowKind::Collect => self.phase != WorkflowPhase::Resetting && self.phase
                != WorkflowPhase::Writing,
        }
    }

    /// How far the workflow has come: every phase counts for more than the
    /// phases before it, and a workflow that is over counts for most.
    pub open spec fn progress(self) -> nat {
        match self.phase {
            WorkflowPhase::Acquiring => 0,
            WorkflowPhase::Resetting => 1,
            WorkflowPhase::WaitingForCard => 2,
            WorkflowPhase::Writing => 3,
            WorkflowPhase::ReadingHash => 3,
            WorkflowPhase::LookingUp => 4,
            WorkflowPhase::Persisting => 5,
            WorkflowPhase::Done => 6,
        }
    }

    /// Whether the workflow has given the reader back for good.
    pub open spec fn has_left_reader(self) -> bool {
        self.phase == WorkflowPhase::LookingUp || self.phase == WorkflowPhase::Persisting
            || self.phase == WorkflowPhase::Done
    }

    /// The card whose identity a link workflow writes.
    pub open spec fn card(self) -> NFCCardView {
        NFCCardView {
            uid: self.uid,
            resident_id: self.resident_id,
            apt: self.apt,
            added_date: self.added_date,
        }
    }

    /// What the workflow is waiting for its caller to do.
    pub open spec fn pending(self) -> ActionView {
        match self.phase {
            WorkflowPhase::Acquiring => ActionView::AwaitReader,
            WorkflowPhase::Resetting => ActionView::ResetReader {
                lead_millis: RESET_LEAD_MS,
                tail_millis: RESET_TAIL_MS,
            },
            WorkflowPhase::WaitingForCard => ActionView::WaitForCard {
                timeout_secs: CARD_TIMEOUT_SECS,
            },
            WorkflowPhase::Writing => ActionView::WriteHash { hash: self.hash },
            WorkflowPhase::ReadingHash => ActionView::ReadHash,
            WorkflowPhase::LookingUp => ActionView::FindPackages {
                card_hash: self.hash,
                package_ids: self.package_ids,
            },
            WorkflowPhase::Persisting => match self.kind {
                WorkflowKind::Link => ActionView::SaveCard {
                    resident_id: self.resident_id,
                    apt: self.apt,
                    added_date: self.added_date,
                    hash: self.hash,
                    audit: link_audit_text(self.uid, self.hash, self.resident_id, self.apt),
                },
                WorkflowKind::Collect => ActionView::StoreCollected { report: self.report },
            },
            WorkflowPhase::Done => ActionView::Finish(self.outcome),
        }
    }

    /// The workflow asks for the reader: with the reader granted it goes to
    /// work, else it keeps waiting.
    pub open spec fn ask(self, lock: LockState) -> WorkflowStep {
        if lock.grants() {
            WorkflowStep {
                workflow: WorkflowView {
                    phase: match self.kind {
                        WorkflowKind::Link => WorkflowPhase::Resetting,
                        WorkflowKind::Collect => WorkflowPhase::WaitingForCard,
                    },
                    ..self
                },
                lock: lock.acquire(Actor::Writer),
            }
        } else {
            WorkflowStep { workflow: self, lock }
        }
    }

    /// The workflow gives the reader back and clears the pause flag.
    pub open spec fn leave(self, lock: LockState, phase: WorkflowPhase, outcome: OutcomeView)
        -> WorkflowStep {
        WorkflowStep {
            workflow: WorkflowView { phase, outcome, ..self },
            lock: lock.release(Actor::Writer).apply(LockOp::Resume),
        }
    }

    /// The workflow is given up.
    pub open spec fn abort(self, lock: LockState, kind: ErrorKind) -> WorkflowStep {
        self.leave(lock, WorkflowPhase::Done, OutcomeView::Failed(kind))
    }

    /// The workflow stays at work on the reader, in `phase`.
    pub open spec fn go_on(self, lock: LockState, phase: WorkflowPhase) -> WorkflowStep {
        WorkflowStep { workflow: WorkflowView { phase, ..self }, lock }
    }

    /// One step of the workflow, taken at the time `now`. An event that does
    /// not answer what the workflow is waiting for changes nothing.
    ///
    /// The time matters twice: when a link finds its card, it becomes the
    /// date of issue that goes into the card's hash; when a collection has
    /// its packages, it becomes their time of collection.
    pub open spec fn step(self, lock: LockState, event: EventView, now: Seq<char>) -> WorkflowStep {
        match (self.phase, event) {
            (WorkflowPhase::Acquiring, EventView::Retry) => self.ask(lock),
            (WorkflowPhase::Resetting, EventView::ResetDone) => self.go_on(
                lock,
                WorkflowPhase::WaitingForCard,
            ),
            (WorkflowPhase::WaitingForCard, EventView::CardFound { uid }) => match self.kind {
                WorkflowKind::Link => {
                    let found = WorkflowView { uid, added_date: now, ..self };
                    WorkflowView { hash: found.card().identity_hash(), ..found }.go_on(
                        lock,
                        WorkflowPhase::Writing,
                    )
                },
                WorkflowKind::Collect => WorkflowView { uid, ..self }.go_on(
                    lock,
                    WorkflowPhase::ReadingHash,
                ),
            },
            (WorkflowPhase::Writing, EventView::Written(WriteOutcome::Failed(kind))) => self.abort(
                lock,
                kind,
            ),
            (WorkflowPhase::Writing, EventView::Written(_)) => self.leave(
                lock,
                WorkflowPhase::Persisting,
                self.outcome,
            ),
            (WorkflowPhase::ReadingHash, EventView::HashRead { hash }) => WorkflowView {
                hash,
                ..self
            }.leave(lock, WorkflowPhase::LookingUp, self.outcome),
            (WorkflowPhase::LookingUp, EventView::PackagesFound { owner, requests }) =>
                WorkflowStep {
                workflow: WorkflowView {
                    phase: WorkflowPhase::Persisting,
                    added_date: now,
                    report: batch_report(owner, requests, now),
                    ..self
                },
                lock,
            },
            (WorkflowPhase::Persisting, EventView::Stored) => WorkflowStep {
                workflow: WorkflowView {
                    phase: WorkflowPhase::Done,
                    outcome: match self.kind {
                        WorkflowKind::Link => OutcomeView::Completed,
                        WorkflowKind::Collect => OutcomeView::Collected(self.report),
                    },
                    ..self
                },
                lock,
            },
            (WorkflowPhase::LookingUp, EventView::StoreRefused(message)) => WorkflowStep {
                workflow: WorkflowView {
                    phase: WorkflowPhase::Done,
                    outcome: OutcomeView::StoreFailed(message),
                    ..self
                },
                lock,
            },
            (WorkflowPhase::Persisting, EventView::StoreRefused(message)) => WorkflowStep {
                workflow: WorkflowView {
                    phase: WorkflowPhase::Done,
                    outcome: OutcomeView::StoreFailed(message),
                    ..self
                },
                lock,
            },
            (_, EventView::Failed(kind)) => if self.holds_reader() {
                self.abort(lock, kind)
            } else {
                WorkflowStep { workflow: self, lock }
            },
            _ => WorkflowStep { workflow: self, lock },
        }
    }

    /// What ties a workflow to the lock: while it works on the reader it
    /// owns the reader; once it has left the reader it neither owns it nor
    /// keeps the poller paused; while it waits for the reader the pause flag
    /// is raised and it does not own the reader.
    pub open spec fn in_step_with(self, lock: LockState) -> bool {
        &&& self.holds_reader() ==> lock.holder == Some(Actor::Writer) && lock.paused
        &&& self.has_left_reader() ==> lock.holder != Some(Actor::Writer) && !lock.paused
        &&& self.phase == WorkflowPhase::Acquiring ==> lock.holder != Some(Actor::Writer)
            && lock.paused
    }
}

/// A foreground workflow.
#[derive(Debug)]
pub struct Workflow {
    kind: WorkflowKind,
    phase: WorkflowPhase,
    resident_id: u32,
    apt: String,
    package_ids: Vec<u32>,
    uid: String,
    added_date: String,
    hash: String,
    report: CollectReport,
    outcome: WorkflowOutcome,
}

impl View for Workflow {
    type V = WorkflowView;

    closed spec fn view(&self) -> WorkflowView {
        WorkflowView {
            kind: self.kind,
            phase: self.phase,
            resident_id: self.resident_id,
            apt: self.apt@,
            package_ids: self.package_ids@,
            uid: self.uid@,
            added_date: self.added_date@,
            hash: self.hash@,
            report: self.report@,
            outcome: self.outcome@,
        }
    }
}

impl Workflow {
    /// Begins the workflow that links a card to the resident `resident_id`
    /// of apartment `apt`.
    ///
    /// The pause flag is raised and the reader is asked for at once. The
    /// number 0 stands for no resident: such a workflow is over before it
    /// begins, with `NotFound`, and leaves the lock alone.
    pub fn link(lock: &mut ReaderLock, resident_id: u32, apt: &str) -> (workflow: Workflow)
        ensures
            resident_id == 0 ==> final(lock)@ == old(lock)@ && workflow@ == (WorkflowView {
                phase: WorkflowPhase::Done,
                outcome: OutcomeView::Failed(ErrorKind::NotFound),
                ..WorkflowView::prepared(WorkflowKind::Link, resident_id, apt@, Seq::empty())
            }),
            resident_id != 0 ==> (WorkflowStep { workflow: workflow@, lock: final(lock)@ })
                == WorkflowView::prepared(WorkflowKind::Link, resident_id, apt@, Seq::empty()).ask(
                old(lock)@.apply(LockOp::Pause),
            ),
            old(lock)@.holder != Some(Actor::Writer) && resident_id != 0
                ==> workflow@.in_step_with(final(lock)@),
            workflow@.coherent(),
    {
        let mut workflow = Workflow {
            kind: WorkflowKind::Link,
            phase: WorkflowPhase::Acquiring,
            resident_id,
            apt: apt.to_owned(),
            package_ids: Vec::new(),
            uid: String::new(),
            added_date: String::new(),
            hash: String::new(),
            report: CollectReport::nothing(),
            outcome: WorkflowOutcome::Completed,
        };
        if resident_id == 0 {
            workflow.phase = WorkflowPhase::Done;
            workflow.outcome = WorkflowOutcome::Failed(ErrorKind::NotFound);
            return workflow;
        }
        lock.pause();
        workflow.ask(lock);
        workflow
    }

    /// Begins the workflow that hands out the packages `package_ids` to the
    /// owner of the card that is presented.
    ///
    /// The pause flag is raised and the reader is asked for at once.
    pub fn collect(lock: &mut ReaderLock, package_ids: Vec<u32>) -> (workflow: Workflow)
        ensures
            (WorkflowStep { workflow: workflow@, lock: final(lock)@ }) == WorkflowView::prepared(
                WorkflowKind::Collect,
                0,
                Seq::empty(),
                package_ids@,
            ).ask(old(lock)@.apply(LockOp::Pause)),
            old(lock)@.holder != Some(Actor::Writer) ==> workflow@.in_step_with(final(lock)@),
            workflow@.coherent(),
    {
        let mut workflow = Workflow {
            kind: WorkflowKind::Collect,
            phase: WorkflowPhase::Acquiring,
            resident_id: 0,
            apt: String::new(),
            package_ids,
            uid: String::new(),
            added_date: String::new(),
            hash: String::new(),
            report: CollectReport::nothing(),
            outcome: WorkflowOutcome::Completed,
        };
        lock.pause();
        workflow.ask(lock);
        workflow
    }

    /// Where the workflow stands.
    pub fn phase(&self) -> (phase: WorkflowPhase)
        ensures
            phase == self@.phase,
    {
        self.phase
    }

    /// What the name of the reader to use should hold. A link prefers a
    /// reader whose name holds `Contactless`; a collection takes the first
    /// reader there is.
    pub fn preferred_reader(&self) -> (name: &'static str)
        ensures
            name@ == match self@.kind {
                WorkflowKind::Link => "Contactless"@,
                WorkflowKind::Collect => ""@,
            },
    {
        match self.kind {
            WorkflowKind::Link => "Contactless",
            WorkflowKind::Collect => "",
        }
    }

    /// Whether the workflow is over.
    pub fn is_done(&self) -> (done: bool)
        ensures
            done == (self@.phase == WorkflowPhase::Done),
    {
        self.phase == WorkflowPhase::Done
    }

    /// What the workflow is waiting for its caller to do.
    pub fn pending(&self) -> (action: WorkflowAction)
        ensures
            action@ == self@.pending(),
    {
        match self.phase {
            WorkflowPhase::Acquiring => WorkflowAction::AwaitReader,
            WorkflowPhase::Resetting => WorkflowAction::ResetReader {
                lead_millis: RESET_LEAD_MS,
                tail_millis: RESET_TAIL_MS,
            },
            WorkflowPhase::WaitingForCard => WorkflowAction::WaitForCard {
                timeout_secs: CARD_TIMEOUT_SECS,
            },
            WorkflowPhase::Writing => WorkflowAction::WriteHash { hash: self.hash.clone() },
            WorkflowPhase::ReadingHash => WorkflowAction::ReadHash,
            WorkflowPhase::LookingUp => WorkflowAction::FindPackages {
                card_hash: self.hash.clone(),
                package_ids: self.package_ids.clone(),
            },
            WorkflowPhase::Persisting => match self.kind {
                WorkflowKind::Link => WorkflowAction::SaveCard {
                    resident_id: self.resident_id,
                    apt: self.apt.clone(),
                    added_date: self.added_date.clone(),
                    hash: self.hash.clone(),
                    audit: link_audit(
                        self.uid.as_str(),
                        self.hash.as_str(),
                        self.resident_id,
                        self.apt.as_str(),
                    ),
                },
                WorkflowKind::Collect => WorkflowAction::StoreCollected {
                    report: self.report.duplicate(),
                },
            },
            WorkflowPhase::Done => WorkflowAction::Finish(
                match &self.outcome {
                    WorkflowOutcome::Completed => WorkflowOutcome::Completed,
                    WorkflowOutcome::Collected(report) => WorkflowOutcome::Collected(
                        report.duplicate(),
                    ),
                    WorkflowOutcome::Failed(kind) => WorkflowOutcome::Failed(*kind),
                    WorkflowOutcome::StoreFailed(message) => WorkflowOutcome::StoreFailed(
                        message.clone(),
                    ),
                },
            ),
        }
    }

    /// Takes one step: given what happened, decides what to do next.
    ///
    /// The step is [`step_at`](Self::step_at) at the time that the clock
    /// shows. When a link finds its card, that time becomes the card's date
    /// of issue; when a collection has its packages, it becomes their time
    /// of collection; it plays no part otherwise.
    pub fn step(&mut self, lock: &mut ReaderLock, event: WorkflowEvent) -> (action: WorkflowAction)
        ensures
            (WorkflowStep { workflow: final(self)@, lock: final(lock)@ }) == old(self)@.step(
                old(lock)@,
                event@,
                final(self)@.added_date,
            ),
            action@ == final(self)@.pending(),
            old(self)@.coherent() ==> final(self)@.coherent(),
            old(self)@.in_step_with(old(lock)@) ==> {
                &&& final(self)@.in_step_with(final(lock)@)
                &&& action@.uses_reader() ==> final(lock)@.holder == Some(Actor::Writer)
                &&& action@.uses_store() ==> final(lock)@.holder != Some(Actor::Writer)
                    && !final(lock)@.paused
                &&& action@ is Finish ==> final(lock)@.holder != Some(Actor::Writer)
                    && !final(lock)@.paused
            },
    {
        let now = match (self.phase, self.kind, &event) {
            (
                WorkflowPhase::WaitingForCard,
                WorkflowKind::Link,
                WorkflowEvent::CardFound { .. },
            ) => local_time("%Y-%m-%d %H:%M:%S"),
            (WorkflowPhase::LookingUp, _, WorkflowEvent::PackagesFound { .. }) => local_time(
                "%Y-%m-%d %H:%M:%S",
            ),
            _ => self.added_date.clone(),
        };
        self.step_at(lock, event, now)
    }

    /// Takes one step at the time `now`: given what happened, decides what
    /// to do next.
    ///
    /// The workflow uses the lock as the module describes: it asks its
    /// caller to use the reader only while it owns the reader, and to change
    /// the store only after it has given the reader back and cleared the
    /// pause flag. Once the workflow is over, the pause flag is clear and
    /// the workflow does not own the reader.
    pub fn step_at(&mut self, lock: &mut ReaderLock, event: WorkflowEvent, now: String) -> (action:
        WorkflowAction)
        ensures
            (WorkflowStep { workflow: final(self)@, lock: final(lock)@ }) == old(self)@.step(
                old(lock)@,
                event@,
                now@,
            ),
            action@ == final(self)@.pending(),
            old(self)@.coherent() ==> final(self)@.coherent(),
            old(self)@.in_step_with(old(lock)@) ==> {
                &&& final(self)@.in_step_with(final(lock)@)
                &&& action@.uses_reader() ==> final(lock)@.holder == Some(Actor::Writer)
                &&& action@.uses_store() ==> final(lock)@.holder != Some(Actor::Writer)
                    && !final(lock)@.paused
                &&& action@ is Finish ==> final(lock)@.holder != Some(Actor::Writer)
                    && !final(lock)@.paused
            },
    {
        match (self.phase, event) {
            (WorkflowPhase::Acquiring, WorkflowEvent::Retry) => {
                self.ask(lock);
            },
            (WorkflowPhase::Resetting, WorkflowEvent::ResetDone) => {
                self.phase = WorkflowPhase::WaitingForCard;
            },
            (WorkflowPhase::WaitingForCard, WorkflowEvent::CardFound { uid }) => {
                match self.kind {
                    WorkflowKind::Link => {
                        let card = NFCCardData {
                            uid,
                            resident_id: self.resident_id,
                            apt: self.apt.clone(),
                            added_date: now,
                        };
                        self.hash = card.generate_hash();
                        self.uid = card.uid;
                        self.added_date = card.added_date;
                        self.phase = WorkflowPhase::Writing;
                    },
                    WorkflowKind::Collect => {
                        self.uid = uid;
                        self.phase = WorkflowPhase::ReadingHash;
                    },
                }
            },
            (WorkflowPhase::Writing, WorkflowEvent::Written(outcome)) => {
                match outcome {
                    WriteOutcome::Failed(kind) => {
                        self.abort(lock, kind);
                    },
                    _ => {
                        self.leave(lock);
                        self.phase = WorkflowPhase::Persisting;
                    },
                }
            },
            (WorkflowPhase::ReadingHash, WorkflowEvent::HashRead { hash }) => {
                self.hash = hash;
                self.leave(lock);
                self.phase = WorkflowPhase::LookingUp;
            },
            (WorkflowPhase::LookingUp, WorkflowEvent::PackagesFound { owner, requests }) => {
                self.report = collect_selected_at(owner.as_ref(), &requests, now.as_str());
                self.added_date = now;
                self.phase = WorkflowPhase::Persisting;
            },
            (WorkflowPhase::Persisting, WorkflowEvent::Stored) => {
                self.outcome = match self.kind {
                    WorkflowKind::Link => WorkflowOutcome::Completed,
                    WorkflowKind::Collect => WorkflowOutcome::Collected(self.report.duplicate()),
                };
                self.phase = WorkflowPhase::Done;
            },
            (WorkflowPhase::LookingUp, WorkflowEvent::StoreRefused(message)) => {
                self.outcome = WorkflowOutcome::StoreFailed(message);
                self.phase = WorkflowPhase::Done;
            },
            (WorkflowPhase::Persisting, WorkflowEvent::StoreRefused(message)) => {
                self.outcome = WorkflowOutcome::StoreFailed(message);
                self.phase = WorkflowPhase::Done;
            },
            (_, WorkflowEvent::Failed(kind)) => {
                if self.phase == WorkflowPhase::Resetting || self.phase
                    == WorkflowPhase::WaitingForCard || self.phase == WorkflowPhase::Writing
                    || self.phase == WorkflowPhase::ReadingHash {
                    self.abort(lock, kind);
                }
            },
            _ => {},
        }
        self.pending()
    }

    fn ask(&mut self, lock: &mut ReaderLock)
        ensures
            (WorkflowStep { workflow: final(self)@, lock: final(lock)@ }) == old(self)@.ask(
                old(lock)@,
            ),
    {
        if lock.acquire_exclusive().is_ok() {
            self.phase = match self.kind {
                WorkflowKind::Link => WorkflowPhase::Resetting,
                WorkflowKind::Collect => WorkflowPhase::WaitingForCard,
            };
        }
    }

    fn leave(&self, lock: &mut ReaderLock)
        ensures
            final(lock)@ == old(lock)@.release(Actor::Writer).apply(LockOp::Resume),
    {
        lock.release(Actor::Writer);
        lock.resume();
    }

    fn abort(&mut self, lock: &mut ReaderLock, kind: ErrorKind)
        ensures
            (WorkflowStep { workflow: final(self)@, lock: final(lock)@ }) == old(self)@.abort(
                old(lock)@,
                kind,
            ),
    {
        self.leave(lock);
        self.outcome = WorkflowOutcome::Failed(kind);
        self.phase = WorkflowPhase::Done;
    }
}

/// Builds the line that the audit log gets when a card is linked.
pub fn link_audit(uid: &str, hash: &str, resident_id: u32, apt: &str) -> (text: String)
    ensures
        text@ == link_audit_text(uid@, hash@, resident_id, apt@),
{
    let shown = hash.unicode_len();
    let shown = if shown < HASH_SHOWN {
        shown
    } else {
        HASH_SHOWN
    };
    let mut text = String::from_str("Card linked: UID=");
    text.append(uid);
    text.append(", Hash=");
    text.append(hash.substring_char(0, shown));
    text.append(", Resident ID=");
    push_decimal(&mut text, resident_id);
    text.append(", Apt=");
    text.append(apt);
    text
}

impl OutcomeView {
    /// The short message that a user is shown for this outcome.
    pub open spec fn message_text(self) -> Seq<char> {
        match self {
            OutcomeView::Completed => "Success"@,
            OutcomeView::Collected(report) => if report.collected == 0 && report.failed.len() > 0 {
                "Failed to collect packages"@
            } else {
                decimal_text(report.collected) + " collected, "@ + decimal_text(
                    report.failed.len(),
                ) + " failed"@
            },
            OutcomeView::Failed(kind) => "Error: "@ + kind.message_text(),
            OutcomeView::StoreFailed(message) => "Error: "@ + message,
        }
    }
}

impl WorkflowOutcome {
    /// The short message that a user is shown for this outcome. What the
    /// store said is passed on word for word.
    pub fn message(&self) -> (text: String)
        ensures
            text@ == self@.message_text(),
    {
        match self {
            WorkflowOutcome::Completed => String::from_str("Success"),
            WorkflowOutcome::Collected(report) => {
                if report.collected == 0 && report.failed.len() > 0 {
                    String::from_str("Failed to collect packages")
                } else {
                    let mut text = String::new();
                    push_count(&mut text, report.collected as u64);
                    text.append(" collected, ");
                    push_count(&mut text, report.failed.len() as u64);
                    text.append(" failed");
                    assert(text@ =~= self@.message_text());
                    text
                }
            },
            WorkflowOutcome::Failed(kind) => {
                let mut text = String::from_str("Error: ");
                text.append(kind.message().as_str());
                text
            },
            WorkflowOutcome::StoreFailed(message) => {
                let mut text = String::from_str("Error: ");
                text.append(message.as_str());
                text
            },
        }
    }
}

/// A workflow that is over stays as it is and leaves the lock alone, whatever
/// is reported to it. In particular, a workflow that was given up never asks
/// for anything to be stored.
pub proof fn lemma_done_is_final(
    workflow: WorkflowView,
    lock: LockState,
    event: EventView,
    now: Seq<char>,
)
    requires
        workflow.phase == WorkflowPhase::Done,
    ensures
        workflow.step(lock, event, now) == (WorkflowStep { workflow, lock }),
        workflow.pending() is Finish,
{
}

/// A workflow never goes back: a step either changes nothing, or takes the
/// workflow to a later phase. So a workflow is over after at most six steps
/// that change anything.
pub proof fn lemma_workflow_moves_forward(
    workflow: WorkflowView,
    lock: LockState,
    event: EventView,
    now: Seq<char>,
)
    ensures
        workflow.step(lock, event, now) == (WorkflowStep { workflow, lock }) || workflow.step(
            lock,
            event,
            now,
        ).workflow.progress() > workflow.progress(),
        workflow.progress() <= 6,
        workflow.progress() == 6 <==> workflow.phase == WorkflowPhase::Done,
{
}

/// A workflow turns to the store only after the work on the card has
/// succeeded: a link after its hash was written to the card, a collection
/// after the hash was read from the card.
pub proof fn lemma_stored_only_after_success(
    workflow: WorkflowView,
    lock: LockState,
    event: EventView,
    now: Seq<char>,
)
    requires
        workflow.coherent(),
        !workflow.has_left_reader(),
        workflow.step(lock, event, now).workflow.has_left_reader(),
        workflow.step(lock, event, now).workflow.phase != WorkflowPhase::Done,
    ensures
        workflow.kind == WorkflowKind::Link ==> workflow.phase == WorkflowPhase::Writing && (event
            == EventView::Written(WriteOutcome::Verified) || event == EventView::Written(
            WriteOutcome::Unverified,
        )),
        workflow.kind == WorkflowKind::Collect ==> workflow.phase == WorkflowPhase::ReadingHash
            && event is HashRead,
{
}

/// A collection ends with the report of its batch: once the store has been
/// asked, the workflow judges every package, each by itself, and when what
/// was handed out is stored, its outcome is that report: the outcome for
/// each package and the number of packages handed out.
pub proof fn lemma_collection_ends_with_report(
    workflow: WorkflowView,
    lock: LockState,
    owner: Option<ResidentView>,
    requests: Seq<RequestedView>,
    now: Seq<char>,
    later: Seq<char>,
)
    requires
        workflow.kind == WorkflowKind::Collect,
        workflow.phase == WorkflowPhase::LookingUp,
    ensures
        ({
            let judged = workflow.step(lock, EventView::PackagesFound { owner, requests }, now);
            let stored = judged.workflow.step(judged.lock, EventView::Stored, later);
            &&& judged.workflow.pending() == (ActionView::StoreCollected {
                report: batch_report(owner, requests, now),
            })
            &&& stored.workflow.pending() == ActionView::Finish(
                OutcomeView::Collected(batch_report(owner, requests, now)),
            )
            &&& batch_report(owner, requests, now).outcomes.len() == requests.len()
        }),
{
}

/// One thing that happens to a workflow and its lock: an event reported to
/// the workflow at some time, or the poller asking for the reader or giving
/// it back.
pub enum Happening {
    Event { event: EventView, now: Seq<char> },
    PollerAsks,
    PollerLeaves,
}

impl WorkflowStep {
    /// The workflow and the lock after `happening`.
    pub open spec fn next(self, happening: Happening) -> WorkflowStep {
        match happening {
            Happening::Event { event, now } => self.workflow.step(self.lock, event, now),
            Happening::PollerAsks => WorkflowStep {
                workflow: self.workflow,
                lock: self.lock.acquire(Actor::Poller),
            },
            Happening::PollerLeaves => WorkflowStep {
                workflow: self.workflow,
                lock: self.lock.release(Actor::Poller),
            },
        }
    }

    /// The workflow and the lock after the first `n` of `happenings`.
    pub open spec fn after(self, happenings: Seq<Happening>, n: nat) -> WorkflowStep
        decreases n,
    {
        if n == 0 || n > happenings.len() {
            self
        } else {
            self.after(happenings, (n - 1) as nat).next(happenings[n - 1])
        }
    }
}

/// Whatever happens, a workflow stays in step with the lock, and in the
/// phases of its own kind.
pub proof fn lemma_stays_in_step(state: WorkflowStep, happening: Happening)
    ensures
        state.workflow.in_step_with(state.lock) ==> state.next(happening).workflow.in_step_with(
            state.next(happening).lock,
        ),
        state.workflow.coherent() ==> state.next(happening).workflow.coherent(),
{
}

/// A workflow that is over, however it ended, has left the pause flag clear
/// and does not own the reader. This holds after any sequence of events,
/// failures among them, with the poller asking for the reader and giving it
/// back in between as it pleases, for every workflow begun while no other
/// writer owned the reader. While the workflow owns the reader, on the
/// other hand, a request of the poller is never granted.
pub proof fn lemma_finished_workflow_leaves_reader(
    begun: WorkflowStep,
    happenings: Seq<Happening>,
    n: nat,
)
    requires
        begun.workflow.in_step_with(begun.lock),
        n <= happenings.len(),
    ensures
        begun.after(happenings, n).workflow.in_step_with(begun.after(happenings, n).lock),
        begun.after(happenings, n).workflow.phase == WorkflowPhase::Done ==> {
            &&& !begun.after(happenings, n).lock.paused
            &&& begun.after(happenings, n).lock.holder != Some(Actor::Writer)
        },
        begun.after(happenings, n).workflow.holds_reader() ==> !begun.after(
            happenings,
            n,
        ).lock.grants(),
    decreases n,
{
    if n > 0 {
        lemma_finished_workflow_leaves_reader(begun, happenings, (n - 1) as nat);
        lemma_stays_in_step(begun.after(happenings, (n - 1) as nat), happenings[n - 1]);
    }
}

/// Left to itself, a workflow that is over leaves the reader free: where
/// nobody but the workflow uses the lock, the reader has no owner once the
/// workflow has given it back.
pub proof fn lemma_finished_workflow_frees_reader(
    begun: WorkflowStep,
    happenings: Seq<Happening>,
    n: nat,
)
    requires
        begun.workflow.in_step_with(begun.lock),
        begun.workflow.has_left_reader() ==> begun.lock.holder is None,
        n <= happenings.len(),
        forall|i: int| 0 <= i < n ==> happenings[i] is Event,
    ensures
        begun.after(happenings, n).workflow.in_step_with(begun.after(happenings, n).lock),
        begun.after(happenings, n).workflow.has_left_reader() ==> {
            &&& begun.after(happenings, n).lock.holder is None
            &&& !begun.after(happenings, n).lock.paused
        },
    decreases n,
{
    if n > 0 {
        lemma_finished_workflow_frees_reader(begun, happenings, (n - 1) as nat);
        lemma_stays_in_step(begun.after(happenings, (n - 1) as nat), happenings[n - 1]);
    }
}

} // verus!
