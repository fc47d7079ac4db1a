//! Writing a run of pages to a card, page by page, and reading it back.
//!
//! A [`WriteSession`] is told what happened and answers what to do next. It
//! announces itself with the processing signal, writes one page per
//! connection, and tries a page again, after a pause, until it is accepted
//! or [`MAX_WRITE_ATTEMPTS`] attempts have failed. When all pages are
//! written it reads the whole run back and compares it with what it set out
//! to write. It ends with a signal of success or failure.

use vstd::prelude::*;
use vstd::string::*;
use crate::apdu::{
    is_write_accepted, write_accepted, write_command, write_command_bytes, Disposition, Exchange,
    ExchangeView, Reply, ReplyView, ShareMode,
};
use crate::codec::{encode, encoded, joined, FIRST_PAGE};
use crate::errors::ErrorKind;
use crate::reader::{
    page_bytes, page_fault, page_reads, pages_from, read_pages_exchange, NFCReader, Signal,
};

verus! {

/// How often a page is tried before the write is given up.
pub const MAX_WRITE_ATTEMPTS: u8 = 5;

/// Pause before a page is tried again, and between two pages, in
/// milliseconds.
pub const WRITE_BACKOFF_MS: u64 = 500;

/// Pause after a page was accepted, in milliseconds.
pub const WRITE_SETTLE_MS: u64 = 200;

/// Pause before the run is read back, in milliseconds.
pub const VERIFY_DELAY_MS: u64 = 1500;

/// Where a write stands.
#[derive(Clone, Copy, Debug, PartialEq, Eq, Structural)]
pub enum WritePhase {
    /// The processing signal is being shown.
    Announcing,
    /// A pause before the next attempt to write the current page.
    Pausing,
    /// The current page is being written.
    Writing,
    /// A pause before the run is read back.
    Settling,
    /// The run is being read back.
    Verifying,
    /// The final signal is being shown.
    Concluding,
    /// The write is over.
    Done,
}

/// How a write ended.
#[derive(Clone, Copy, Debug, PartialEq, Eq, Structural)]
pub enum WriteOutcome {
    /// Every page was accepted, and the run read back is what was written.
    Verified,
    /// Every page was accepted, but the run could not be read back.
    Unverified,
    /// The write failed: a page was not accepted (`WriteFailed` with the
    /// number of the page), or the run read back differs from what was
    /// written (`VerificationMismatch`).
    Failed(ErrorKind),
}

/// What is reported to a write.
#[derive(Debug, PartialEq, Eq)]
pub enum WriteEvent {
    /// A signal has been shown, or could not be shown.
    Signalled,
    /// A sleep is over.
    Slept,
    /// An exchange has been run.
    Answered(Reply),
}

/// What a [`WriteEvent`] stands for.
#[verifier::ext_equal]
pub enum WriteEventView {
    Signalled,
    Slept,
    Answered(ReplyView),
}

impl View for WriteEvent {
    type V = WriteEventView;

    open spec fn view(&self) -> WriteEventView {
        match self {
            WriteEvent::Signalled => WriteEventView::Signalled,
            WriteEvent::Slept => WriteEventView::Slept,
            WriteEvent::Answered(reply) => WriteEventView::Answered(reply@),
        }
    }
}

/// What a write asks for.
#[derive(Debug, PartialEq, Eq)]
pub enum WriteAction {
    /// Show the signal, as far as the reader can, then report `Signalled`.
    Show(Signal),
    /// Sleep, then report `Slept`.
    Sleep { millis: u64 },
    /// Run the exchange, which writes one page, then report `Answered`.
    Write(Exchange),
    /// Run the exchange, which reads the run back, then report `Answered`.
    ReadBack(Exchange),
    /// Nothing more: the write is over, with this outcome.
    Finish(WriteOutcome),
}

/// What a [`WriteAction`] stands for.
#[verifier::ext_equal]
pub enum WriteActionView {
    Show(Signal),
    Sleep { millis: u64 },
    Write(ExchangeView),
    ReadBack(ExchangeView),
    Finish(WriteOutcome),
}

impl View for WriteAction {
    type V = WriteActionView;

    open spec fn view(&self) -> WriteActionView {
        match self {
            WriteAction::Show(signal) => WriteActionView::Show(*signal),
            WriteAction::Sleep { millis } => WriteActionView::Sleep { millis: *millis },
            WriteAction::Write(exchange) => WriteActionView::Write(exchange@),
            WriteAction::ReadBack(exchange) => WriteActionView::ReadBack(exchange@),
            WriteAction::Finish(outcome) => WriteActionView::Finish(*outcome),
        }
    }
}

/// The exchange that writes `chunk` to `page`, over a connection of its own
/// that nobody shares.
pub open spec fn page_write(page: u8, chunk: Seq<u8>) -> ExchangeView {
    ExchangeView {
        mode: ShareMode::Exclusive,
        commands: seq![write_command_bytes(page, chunk)],
        disposition: Disposition::LeaveCard,
    }
}

/// What a [`WriteSession`] stands for.
#[verifier::ext_equal]
pub struct WriteSessionView {
    /// The page that the first chunk goes to.
    pub first_page: u8,
    /// What is to be written, one chunk per page.
    pub chunks: Seq<[u8; 4]>,
    /// The position of the chunk that is being written.
    pub page: nat,
    /// How many attempts are left for the current page, this one included.
    pub attempts_left: u8,
    /// The length of the pause under way or last taken.
    pub pause_millis: u64,
    pub phase: WritePhase,
    /// How the write ended, once it is concluding or done.
    pub outcome: WriteOutcome,
}

impl WriteSessionView {
    /// A write of `chunks` to the pages from `first_page` on, before
    /// anything has happened.
    pub open spec fn started(first_page: u8, chunks: Seq<[u8; 4]>) -> WriteSessionView {
        WriteSessionView {
            first_page,
            chunks,
            page: 0,
            attempts_left: MAX_WRITE_ATTEMPTS,
            pause_millis: 0,
            phase: WritePhase::Announcing,
            outcome: WriteOutcome::Unverified,
        }
    }

    /// What holds of every session: the run lies within the pages that a
    /// card can have, and while a page is being written it is one of the
    /// run and has attempts left.
    pub open spec fn wf(self) -> bool {
        &&& self.first_page + self.chunks.len() <= 256
        &&& (self.phase == WritePhase::Pausing || self.phase == WritePhase::Writing) ==> {
            &&& self.page < self.chunks.len()
            &&& 1 <= self.attempts_left <= MAX_WRITE_ATTEMPTS
        }
    }

    /// The number of the page that is being written.
    pub open spec fn page_number(self) -> u8 {
        (self.first_page + self.page) as u8
    }

    /// What the session is waiting for its caller to do.
    pub open spec fn pending(self) -> WriteActionView {
        match self.phase {
            WritePhase::Announcing => WriteActionView::Show(Signal::Processing),
            WritePhase::Pausing => WriteActionView::Sleep { millis: self.pause_millis },
            WritePhase::Writing => WriteActionView::Write(
                page_write(self.page_number(), self.chunks[self.page as int]@),
            ),
            WritePhase::Settling => WriteActionView::Sleep { millis: self.pause_millis },
            WritePhase::Verifying => WriteActionView::ReadBack(
                page_reads(self.first_page, self.chunks.len()),
            ),
            WritePhase::Concluding => WriteActionView::Show(
                if self.outcome == WriteOutcome::Verified {
                    Signal::Success
                } else {
                    Signal::Error
                },
            ),
            WritePhase::Done => WriteActionView::Finish(self.outcome),
        }
    }

    /// The session with its first attempt at the chunk at `page` ahead,
    /// after a pause of `pause_millis` if that is not zero.
    pub open spec fn turn_to(self, page: nat, pause_millis: u64) -> WriteSessionView {
        WriteSessionView {
            page,
            attempts_left: MAX_WRITE_ATTEMPTS,
            pause_millis,
            phase: if pause_millis == 0 {
                WritePhase::Writing
            } else {
                WritePhase::Pausing
            },
            ..self
        }
    }

    /// The session with all pages written and the read-back ahead.
    pub open spec fn settle(self, pause_millis: u64) -> WriteSessionView {
        WriteSessionView { pause_millis, phase: WritePhase::Settling, ..self }
    }

    /// The session with its outcome fixed and the final signal ahead.
    pub open spec fn conclude(self, outcome: WriteOutcome) -> WriteSessionView {
        WriteSessionView { outcome, phase: WritePhase::Concluding, ..self }
    }

    /// The session after the write of the current page was answered.
    pub open spec fn on_written(self, reply: ReplyView) -> WriteSessionView {
        if reply.single() matches Some(answer) && write_accepted(answer) {
            if self.page + 1 < self.chunks.len() {
                self.turn_to(self.page + 1, (WRITE_SETTLE_MS + WRITE_BACKOFF_MS) as u64)
            } else {
                self.settle((WRITE_SETTLE_MS + VERIFY_DELAY_MS) as u64)
            }
        } else if self.attempts_left > 1 {
            WriteSessionView {
                attempts_left: (self.attempts_left - 1) as u8,
                pause_millis: WRITE_BACKOFF_MS,
                phase: WritePhase::Pausing,
                ..self
            }
        } else {
            self.conclude(WriteOutcome::Failed(ErrorKind::WriteFailed(self.page_number())))
        }
    }

    /// The session after the read-back was answered.
    pub open spec fn on_read_back(self, reply: ReplyView) -> WriteSessionView {
        if page_fault(reply, self.chunks.len()) is Some {
            self.conclude(WriteOutcome::Unverified)
        } else if page_bytes(reply, self.chunks.len()) == joined(self.chunks) {
            self.conclude(WriteOutcome::Verified)
        } else {
            self.conclude(WriteOutcome::Failed(ErrorKind::VerificationMismatch))
        }
    }

    /// The session after `event`. An event that does not answer what the
    /// session is waiting for changes nothing.
    pub open spec fn advance(self, event: WriteEventView) -> WriteSessionView {
        match (self.phase, event) {
            (WritePhase::Announcing, WriteEventView::Signalled) => if self.chunks.len() > 0 {
                self.turn_to(0, 0)
            } else {
                self.settle(VERIFY_DELAY_MS)
            },
            (WritePhase::Pausing, WriteEventView::Slept) => WriteSessionView {
                phase: WritePhase::Writing,
                ..self
            },
            (WritePhase::Writing, WriteEventView::Answered(reply)) => self.on_written(reply),
            (WritePhase::Settling, WriteEventView::Slept) => WriteSessionView {
                phase: WritePhase::Verifying,
                ..self
            },
            (WritePhase::Verifying, WriteEventView::Answered(reply)) => self.on_read_back(reply),
            (WritePhase::Concluding, WriteEventView::Signalled) => WriteSessionView {
                phase: WritePhase::Done,
                ..self
            },
            _ => self,
        }
    }

    /// How many attempts to write a page the session can still make at
    /// most.
    pub open spec fn attempts_ahead(self) -> nat {
        if self.phase == WritePhase::Announcing {
            MAX_WRITE_ATTEMPTS as nat * self.chunks.len()
        } else if self.phase == WritePhase::Pausing || self.phase == WritePhase::Writing {
            (MAX_WRITE_ATTEMPTS as nat * (self.chunks.len() - self.page - 1) + self.attempts_left)
                as nat
        } else {
            0
        }
    }
}

/// A write of a run of pages.
#[derive(Debug)]
pub struct WriteSession {
    first_page: u8,
    chunks: Vec<[u8; 4]>,
    page: usize,
    attempts_left: u8,
    pause_millis: u64,
    phase: WritePhase,
    outcome: WriteOutcome,
}

impl View for WriteSession {
    type V = WriteSessionView;

    closed spec fn view(&self) -> WriteSessionView {
        WriteSessionView {
            first_page: self.first_page,
            chunks: self.chunks@,
            page: self.page as nat,
            attempts_left: self.attempts_left,
            pause_millis: self.pause_millis,
            phase: self.phase,
            outcome: self.outcome,
        }
    }
}

impl WriteSession {
    #[verifier::type_invariant]
    spec fn well_formed(self) -> bool {
        self@.wf()
    }

    /// Begins a write of `chunks` to the pages from `first_page` on.
    ///
    /// A run that would reach beyond page 255 is refused with
    /// `CapacityExceeded`.
    pub fn begin(first_page: u8, chunks: Vec<[u8; 4]>) -> (result: Result<WriteSession, ErrorKind>)
        ensures
            match result {
                Ok(session) => first_page + chunks@.len() <= 256 && session@
                    == WriteSessionView::started(first_page, chunks@) && session@.wf(),
                Err(kind) => first_page + chunks@.len() > 256 && kind
                    == ErrorKind::CapacityExceeded,
            },
    {
        if chunks.len() > 256 - first_page as usize {
            return Err(ErrorKind::CapacityExceeded);
        }
        Ok(
            WriteSession {
                first_page,
                chunks,
                page: 0,
                attempts_left: MAX_WRITE_ATTEMPTS,
                pause_millis: 0,
                phase: WritePhase::Announcing,
                outcome: WriteOutcome::Unverified,
            },
        )
    }

    /// Where the write stands.
    pub fn phase(&self) -> (phase: WritePhase)
        ensures
            phase == self@.phase,
    {
        self.phase
    }

    /// How the write ended, once it is over.
    pub fn outcome(&self) -> (outcome: Option<WriteOutcome>)
        ensures
            outcome == if self@.phase == WritePhase::Done {
                Some(self@.outcome)
            } else {
                None
            },
    {
        if self.phase == WritePhase::Done {
            Some(self.outcome)
        } else {
            None
        }
    }

    /// What the session is waiting for its caller to do.
    pub fn pending(&self) -> (action: WriteAction)
        ensures
            action@ == self@.pending(),
            self@.wf(),
    {
        proof {
            use_type_invariant(self);
        }
        match self.phase {
            WritePhase::Announcing => WriteAction::Show(Signal::Processing),
            WritePhase::Pausing => WriteAction::Sleep { millis: self.pause_millis },
            WritePhase::Writing => {
                let number: u8 = (self.first_page as usize + self.page) as u8;
                let command = write_command(number, &self.chunks[self.page]);
                let mut commands: Vec<Vec<u8>> = Vec::new();
                commands.push(command);
                let exchange = Exchange {
                    mode: ShareMode::Exclusive,
                    commands,
                    disposition: Disposition::LeaveCard,
                };
                assert(exchange@.commands =~= seq![command@]);
                WriteAction::Write(exchange)
            },
            WritePhase::Settling => WriteAction::Sleep { millis: self.pause_millis },
            WritePhase::Verifying => WriteAction::ReadBack(
                read_pages_exchange(self.first_page, self.chunks.len()),
            ),
            WritePhase::Concluding => WriteAction::Show(
                if self.outcome == WriteOutcome::Verified {
                    Signal::Success
                } else {
                    Signal::Error
                },
            ),
            WritePhase::Done => WriteAction::Finish(self.outcome),
        }
    }

    /// Takes one step: given what happened, decides what to do next.
    pub fn step(&mut self, event: &WriteEvent) -> (action: WriteAction)
        ensures
            old(self)@.wf(),
            final(self)@ == old(self)@.advance(event@),
            final(self)@.wf(),
            action@ == final(self)@.pending(),
    {
        proof {
            use_type_invariant(&*self);
        }
        match (self.phase, event) {
            (WritePhase::Announcing, WriteEvent::Signalled) => {
                if self.chunks.len() > 0 {
                    self.page = 0;
                    self.attempts_left = MAX_WRITE_ATTEMPTS;
                    self.pause_millis = 0;
                    self.phase = WritePhase::Writing;
                } else {
                    self.pause_millis = VERIFY_DELAY_MS;
                    self.phase = WritePhase::Settling;
                }
            },
            (WritePhase::Pausing, WriteEvent::Slept) => {
                self.phase = WritePhase::Writing;
            },
            (WritePhase::Writing, WriteEvent::Answered(reply)) => {
                self.on_written(reply);
            },
            (WritePhase::Settling, WriteEvent::Slept) => {
                self.phase = WritePhase::Verifying;
            },
            (WritePhase::Verifying, WriteEvent::Answered(reply)) => {
                self.on_read_back(reply);
            },
            (WritePhase::Concluding, WriteEvent::Signalled) => {
                self.phase = WritePhase::Done;
            },
            _ => {},
        }
        self.pending()
    }

    fn on_written(&mut self, reply: &Reply)
        requires
            old(self)@.wf(),
            old(self)@.phase == WritePhase::Writing,
        ensures
            final(self)@ == old(self)@.on_written(reply@),
            final(self)@.wf(),
    {
        let accepted = match reply {
            Reply::NoConnection => false,
            Reply::Answers(answers) => answers.len() > 0 && is_write_accepted(
                answers[0].as_slice(),
            ),
        };
        if accepted {
            if self.page + 1 < self.chunks.len() {
                self.page = self.page + 1;
                self.attempts_left = MAX_WRITE_ATTEMPTS;
                self.pause_millis = WRITE_SETTLE_MS + WRITE_BACKOFF_MS;
                self.phase = WritePhase::Pausing;
            } else {
                self.pause_millis = WRITE_SETTLE_MS + VERIFY_DELAY_MS;
                self.phase = WritePhase::Settling;
            }
        } else if self.attempts_left > 1 {
            self.attempts_left = self.attempts_left - 1;
            self.pause_millis = WRITE_BACKOFF_MS;
            self.phase = WritePhase::Pausing;
        } else {
            let number: u8 = (self.first_page as usize + self.page) as u8;
            self.outcome = WriteOutcome::Failed(ErrorKind::WriteFailed(number));
            self.phase = WritePhase::Concluding;
        }
    }

    fn on_read_back(&mut self, reply: &Reply)
        requires
            old(self)@.wf(),
            old(self)@.phase == WritePhase::Verifying,
        ensures
            final(self)@ == old(self)@.on_read_back(reply@),
            final(self)@.wf(),
    {
        self.outcome = match pages_from(reply, self.chunks.len()) {
            Err(_) => WriteOutcome::Unverified,
            Ok(pages) => {
                if same_chunks(&pages, &self.chunks) {
                    WriteOutcome::Verified
                } else {
                    WriteOutcome::Failed(ErrorKind::VerificationMismatch)
                }
            },
        };
        self.phase = WritePhase::Concluding;
    }
}

/// Tells whether two runs of as many chunks hold the same bytes.
fn same_chunks(left: &Vec<[u8; 4]>, right: &Vec<[u8; 4]>) -> (same: bool)
    requires
        left@.len() == right@.len(),
    ensures
        same == (joined(left@) == joined(right@)),
{
    let mut at: usize = 0;
    while at < left.len()
        invariant
            at <= left@.len(),
            left@.len() == right@.len(),
            forall|i: int| 0 <= i < 4 * at ==> #[trigger] joined(left@)[i] == joined(right@)[i],
        decreases left@.len() - at,
    {
        let a = left[at];
        let b = right[at];
        if a[0] != b[0] || a[1] != b[1] || a[2] != b[2] || a[3] != b[3] {
            assert(joined(left@) != joined(right@)) by {
                let base = 4 * at as int;
                assert(joined(left@)[base] == a@[0] && joined(right@)[base] == b@[0]);
                assert(joined(left@)[base + 1] == a@[1] && joined(right@)[base + 1] == b@[1]);
                assert(joined(left@)[base + 2] == a@[2] && joined(right@)[base + 2] == b@[2]);
                assert(joined(left@)[base + 3] == a@[3] && joined(right@)[base + 3] == b@[3]);
            }
            return false;
        }
        assert forall|i: int| 0 <= i < 4 * (at + 1) implies #[trigger] joined(left@)[i] == joined(
            right@,
        )[i] by {
            if i >= 4 * at {
                assert(i / 4 == at);
            }
        }
        at = at + 1;
    }
    assert(joined(left@) =~= joined(right@));
    true
}

impl NFCReader {
    /// Begins the write of `hash` to the pages reserved for it.
    ///
    /// Without a reader the result is `NoReader`; a hash that does not fit
    /// the pages is refused with `CapacityExceeded`. Otherwise the session
    /// returned writes the encoding of `hash`, as
    /// [`encode`](crate::codec::encode) gives it.
    pub fn write_hash_to_card(&self, hash: &str) -> (result: Result<WriteSession, ErrorKind>)
        ensures
            match result {
                Ok(session) => {
                    &&& self.selected() is Some
                    &&& hash.spec_bytes().len() <= crate::codec::CAPACITY
                    &&& session@.wf()
                    &&& session@ == WriteSessionView::started(FIRST_PAGE, session@.chunks)
                    &&& encoded(hash@, session@.chunks)
                },
                Err(kind) => kind == if self.selected() is None {
                    ErrorKind::NoReader
                } else {
                    ErrorKind::CapacityExceeded
                } && (self.selected() is None || hash.spec_bytes().len()
                    > crate::codec::CAPACITY),
            },
    {
        if !self.has_reader() {
            return Err(ErrorKind::NoReader);
        }
        match encode(hash) {
            Ok(chunks) => WriteSession::begin(FIRST_PAGE, chunks),
            Err(kind) => Err(kind),
        }
    }
}

/// Every answer to the write of a page uses up one of the attempts that the
/// session can still make, so that a write ends after at most
/// [`MAX_WRITE_ATTEMPTS`] attempts for each page; and a page is given up only
/// when its last attempt has failed.
pub proof fn lemma_attempts_run_out(session: WriteSessionView, reply: ReplyView)
    requires
        session.wf(),
        session.phase == WritePhase::Writing,
    ensures
        session.advance(WriteEventView::Answered(reply)).attempts_ahead()
            < session.attempts_ahead(),
        session.advance(WriteEventView::Answered(reply)).phase == WritePhase::Concluding ==> {
            &&& session.attempts_left == 1
            &&& session.advance(WriteEventView::Answered(reply)).outcome == WriteOutcome::Failed(
                ErrorKind::WriteFailed(session.page_number()),
            )
        },
{
    let next = session.advance(WriteEventView::Answered(reply));
    assert(MAX_WRITE_ATTEMPTS as nat * (session.chunks.len() - session.page - 1) >= 0)
        by (nonlinear_arith)
        requires
            session.page < session.chunks.len(),
    ;
    if next.phase == WritePhase::Pausing && next.page == session.page + 1 {
        assert(MAX_WRITE_ATTEMPTS as nat * (session.chunks.len() - session.page - 1)
            == MAX_WRITE_ATTEMPTS as nat * (session.chunks.len() - next.page - 1)
            + MAX_WRITE_ATTEMPTS as nat) by (nonlinear_arith)
            requires
                next.page == session.page + 1,
        ;
    }
}

/// No step of a write adds to the attempts that the session can still make.
pub proof fn lemma_attempts_never_grow(session: WriteSessionView, event: WriteEventView)
    requires
        session.wf(),
    ensures
        session.advance(event).wf(),
        session.advance(event).attempts_ahead() <= session.attempts_ahead(),
{
    if session.phase == WritePhase::Writing {
        if let WriteEventView::Answered(reply) = event {
            lemma_attempts_run_out(session, reply);
        }
    }
}

/// A write is reported as verified only when the run read back holds, byte
/// for byte, what the session set out to write.
pub proof fn lemma_verified_means_read_back(session: WriteSessionView, event: WriteEventView)
    requires
        session.wf(),
        session.phase != WritePhase::Concluding,
        session.phase != WritePhase::Done,
        session.advance(event).phase == WritePhase::Concluding,
        session.advance(event).outcome == WriteOutcome::Verified,
    ensures
        session.phase == WritePhase::Verifying,
        event matches WriteEventView::Answered(reply) && page_fault(reply, session.chunks.len())
            is None && page_bytes(reply, session.chunks.len()) == joined(session.chunks),
{
}

} // verus!
