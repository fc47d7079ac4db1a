//! A card that does as it is told, and what a write to such a card comes to.
//!
//! Nothing here runs: the module states that a write carried out by a card
//! that stores every page it is given, and gives back what it has stored,
//! ends as verified, with the run of pages on the card and nothing else
//! changed.

use vstd::prelude::*;
use crate::apdu::ReplyView;
use crate::codec::joined;
use crate::reader::{page_bytes, page_fault};
use crate::write::{WriteEventView, WriteOutcome, WritePhase, WriteSessionView};

verus! {

/// A write under way and the memory of the card that it writes to, page by
/// page.
pub struct CardWrite {
    pub session: WriteSessionView,
    pub memory: Seq<Seq<u8>>,
}

/// What a card with this memory answers to a read of `count` pages from
/// `first_page` on: each page, followed by the status word of success.
pub open spec fn pages_read(memory: Seq<Seq<u8>>, first_page: u8, count: nat) -> ReplyView {
    ReplyView::Answers(Seq::new(count, |i: int| memory[first_page + i] + seq![0x90u8, 0x00u8]))
}

/// What a card answers to a write that it has carried out: the status word
/// of success.
pub open spec fn page_written() -> ReplyView {
    ReplyView::Answers(seq![seq![0x90u8, 0x00u8]])
}

impl CardWrite {
    /// What is reported to the session when its pending action has been
    /// carried out faithfully.
    pub open spec fn report(self) -> WriteEventView {
        match self.session.phase {
            WritePhase::Pausing | WritePhase::Settling => WriteEventView::Slept,
            WritePhase::Writing => WriteEventView::Answered(page_written()),
            WritePhase::Verifying => WriteEventView::Answered(
                pages_read(self.memory, self.session.first_page, self.session.chunks.len()),
            ),
            _ => WriteEventView::Signalled,
        }
    }

    /// The session and the card after the pending action has been carried
    /// out faithfully: a page that was to be written is in the memory.
    pub open spec fn next(self) -> CardWrite {
        CardWrite {
            session: self.session.advance(self.report()),
            memory: if self.session.phase == WritePhase::Writing {
                self.memory.update(
                    self.session.page_number() as int,
                    self.session.chunks[self.session.page as int]@,
                )
            } else {
                self.memory
            },
        }
    }

    /// The session and the card after `steps` actions.
    pub open spec fn after(self, steps: nat) -> CardWrite
        decreases steps,
    {
        if steps == 0 {
            self
        } else {
            self.after((steps - 1) as nat).next()
        }
    }

    /// Whether the first `count` pages of the run are in the memory, and
    /// every page outside them is as it is in `before`.
    pub open spec fn holds_run(self, before: Seq<Seq<u8>>, count: nat) -> bool {
        &&& self.memory.len() == before.len()
        &&& forall|i: int|
            0 <= i < count ==> #[trigger] self.memory[self.session.first_page + i]
                == self.session.chunks[i]@
        &&& forall|p: int|
            0 <= p < before.len() && !(self.session.first_page <= p < self.session.first_page
                + count) ==> #[trigger] self.memory[p] == before[p]
    }
}

/// How many actions a write of `count` pages takes when nothing goes wrong.
pub open spec fn actions_of_a_write(count: nat) -> nat {
    if count == 0 {
        4
    } else {
        2 * count + 3
    }
}

/// After two actions for each of the first `written` pages, these pages are
/// on the card, and the session pauses before the next page, or before the
/// read-back when that was the last one.
proof fn lemma_pages_get_written(begun: CardWrite, written: nat)
    requires
        begun.session == WriteSessionView::started(begun.session.first_page, begun.session.chunks),
        begun.session.wf(),
        begun.memory.len() == 256,
        1 <= written <= begun.session.chunks.len(),
    ensures
        begun.after(2 * written).holds_run(begun.memory, written),
        begun.after(2 * written).session.first_page == begun.session.first_page,
        begun.after(2 * written).session.chunks == begun.session.chunks,
        written < begun.session.chunks.len() ==> {
            &&& begun.after(2 * written).session.phase == WritePhase::Pausing
            &&& begun.after(2 * written).session.page == written
            &&& begun.after(2 * written).session.wf()
        },
        written == begun.session.chunks.len() ==> begun.after(2 * written).session.phase
            == WritePhase::Settling,
    decreases written,
{
    let first = begun.session.first_page;
    if written == 1 {
        let announced = begun.after(1);
        assert(begun.after(0) == begun);
        assert(announced == begun.next());
        assert(announced.session.phase == WritePhase::Writing);
        assert(begun.after(2) == announced.next());
    } else {
        lemma_pages_get_written(begun, (written - 1) as nat);
        let paused = begun.after((2 * (written - 1)) as nat);
        let writing = begun.after((2 * written - 1) as nat);
        assert(writing == paused.next());
        assert(begun.after(2 * written) == writing.next());
        assert(writing.session.phase == WritePhase::Writing);
        assert(writing.session.page == written - 1);
        let end = begun.after(2 * written);
        assert forall|i: int| 0 <= i < written implies #[trigger] end.memory[first + i]
            == end.session.chunks[i]@ by {
            if i < written - 1 {
                assert(paused.memory[first + i] == paused.session.chunks[i]@);
            }
        }
    }
}

/// A write to a card that does as it is told ends as verified, with the
/// whole run on the card and every other page as it was, after
/// [`actions_of_a_write`] actions.
pub proof fn lemma_obedient_card_is_verified(begun: CardWrite)
    requires
        begun.session == WriteSessionView::started(begun.session.first_page, begun.session.chunks),
        begun.session.wf(),
        begun.memory.len() == 256,
    ensures
        ({
            let end = begun.after(actions_of_a_write(begun.session.chunks.len()));
            &&& end.session.phase == WritePhase::Done
            &&& end.session.outcome == WriteOutcome::Verified
            &&& end.holds_run(begun.memory, begun.session.chunks.len())
        }),
{
    let count = begun.session.chunks.len();
    let first = begun.session.first_page;
    let settling = if count == 0 {
        begun.after(1)
    } else {
        begun.after(2 * count)
    };
    if count == 0 {
        assert(begun.after(0) == begun);
        assert(settling == begun.next());
    } else {
        lemma_pages_get_written(begun, count);
    }
    let reached: nat = if count == 0 {
        1
    } else {
        2 * count
    };
    assert(settling == begun.after(reached));
    assert(settling.session.phase == WritePhase::Settling);
    assert(settling.holds_run(begun.memory, count));
    let verifying = begun.after(reached + 1);
    assert(verifying == settling.next());
    let concluding = begun.after(reached + 2);
    assert(concluding == verifying.next());
    let reply = pages_read(verifying.memory, first, count);
    assert(page_fault(reply, count) is None) by {
        assert forall|i: int| 0 <= i < count implies crate::apdu::holds_page(
            #[trigger] reply->Answers_0[i],
        ) by {
            assert(verifying.memory[first + i] == begun.session.chunks[i]@);
        }
    }
    assert(page_bytes(reply, count) =~= joined(begun.session.chunks)) by {
        assert forall|j: int| 0 <= j < 4 * count implies page_bytes(reply, count)[j] == joined(
            begun.session.chunks,
        )[j] by {
            assert(verifying.memory[first + j / 4] == begun.session.chunks[j / 4]@);
        }
    }
    assert(concluding.session.outcome == WriteOutcome::Verified);
    let done = begun.after(reached + 3);
    assert(done == concluding.next());
    assert(reached + 3 == actions_of_a_write(count));
}

} // verus!
