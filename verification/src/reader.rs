//! A session with one reader.
//!
//! An [`NFCReader`] knows which reader it talks to and what to say to it. It
//! does not talk itself: each operation is split into the [`Exchange`] to
//! run on the device and the reading of the [`Reply`] that came back. Every
//! exchange opens its own connection and closes it again, so no connection
//! outlives an operation.

use vstd::prelude::*;
use vstd::string::*;
use vstd::utf8::*;
use crate::apdu::{
    holds_page, led_command, led_command_bytes, parse_page, parse_uid, read_command,
    read_command_bytes, uid_command, uid_command_bytes, uid_in, byte_rows, Disposition, Exchange,
    ExchangeView, Reply, ReplyView, ShareMode,
};
use crate::codec::{
    decode, decoded_bytes, joined, text_or_error, FIRST_PAGE, PAGE_COUNT,
};
use crate::errors::ErrorKind;
use crate::records::text_of;

verus! {

/// Time between two attempts to find a card, in milliseconds.
pub const PROBE_INTERVAL_MS: u64 = 200;

/// A signal to the person at the reader.
#[derive(Clone, Copy, Debug, PartialEq, Eq, Structural)]
pub enum Signal {
    /// Green for two seconds: the operation succeeded.
    Success,
    /// Red for two seconds: the operation failed.
    Error,
    /// Orange for one second: the operation is under way.
    Processing,
}

impl Signal {
    /// The colour of the signal.
    pub open spec fn color(self) -> u8 {
        match self {
            Signal::Success => 1,
            Signal::Error => 2,
            Signal::Processing => 3,
        }
    }

    /// How long the signal is shown, in milliseconds.
    pub open spec fn duration_ms(self) -> u16 {
        match self {
            Signal::Success => 2000,
            Signal::Error => 2000,
            Signal::Processing => 1000,
        }
    }
}

/// The exchange that sends one command over a shared connection and leaves
/// the card as it is.
pub open spec fn single_command(command: Seq<u8>) -> ExchangeView {
    ExchangeView {
        mode: ShareMode::Shared,
        commands: seq![command],
        disposition: Disposition::LeaveCard,
    }
}

/// The exchange that reads `count` pages from `first_page` on, over one
/// shared connection.
pub open spec fn page_reads(first_page: u8, count: nat) -> ExchangeView {
    ExchangeView {
        mode: ShareMode::Shared,
        commands: Seq::new(count, |i: int| read_command_bytes((first_page + i) as u8)),
        disposition: Disposition::LeaveCard,
    }
}

/// The exchange that only resets the card.
pub open spec fn reset_only() -> ExchangeView {
    ExchangeView {
        mode: ShareMode::Shared,
        commands: Seq::empty(),
        disposition: Disposition::ResetCard,
    }
}

/// What a reply to a request for the UID says: the UID, or `NoCard` where
/// nothing usable came back.
pub open spec fn uid_of(reply: ReplyView) -> Result<Seq<char>, ErrorKind> {
    match reply.single() {
        Some(answer) => match uid_in(answer) {
            Some(uid) => Ok(uid),
            None => Err(ErrorKind::NoCard),
        },
        None => Err(ErrorKind::NoCard),
    }
}

/// What is wrong with a reply to a read of `count` pages, if anything:
/// `NoCard` where no connection was made, `ReadError` where one of the pages
/// was not answered or was answered with less than a page.
pub open spec fn page_fault(reply: ReplyView, count: nat) -> Option<ErrorKind> {
    match reply {
        ReplyView::NoConnection => Some(ErrorKind::NoCard),
        ReplyView::Answers(answers) => if answers.len() >= count && forall|i: int|
            0 <= i < count ==> holds_page(#[trigger] answers[i]) {
            None
        } else {
            Some(ErrorKind::ReadError)
        },
    }
}

/// The bytes of the `count` pages in a reply, one page after the other.
pub open spec fn page_bytes(reply: ReplyView, count: nat) -> Seq<u8> {
    Seq::new(4 * count, |i: int| reply->Answers_0[i / 4][i % 4])
}

/// What a reply to a read of the hash says: the fault of the reply, or what
/// the pages decode to.
pub open spec fn hash_of(reply: ReplyView) -> Result<Seq<char>, ErrorKind> {
    match page_fault(reply, PAGE_COUNT as nat) {
        Some(kind) => Err(kind),
        None => decoded_bytes(page_bytes(reply, PAGE_COUNT as nat)),
    }
}

/// Whether `needle` occurs in `haystack` as a run of consecutive bytes.
pub open spec fn occurs_in(needle: Seq<u8>, haystack: Seq<u8>) -> bool {
    exists|at: int| occurs_at(needle, haystack, at)
}

/// Whether `needle` occurs in `haystack` at position `at`.
pub open spec fn occurs_at(needle: Seq<u8>, haystack: Seq<u8>, at: int) -> bool {
    &&& 0 <= at
    &&& at + needle.len() <= haystack.len()
    &&& haystack.subrange(at, at + needle.len()) == needle
}

/// Tells whether `needle` occurs in `haystack`.
pub fn contains_text(haystack: &str, needle: &str) -> (found: bool)
    ensures
        found == occurs_in(needle.spec_bytes(), haystack.spec_bytes()),
{
    let hay = haystack.as_bytes();
    let pin = needle.as_bytes();
    if pin.len() > hay.len() {
        assert forall|at: int| !occurs_at(pin@, hay@, at) by {}
        return false;
    }
    let last: usize = hay.len() - pin.len();
    let mut at: usize = 0;
    loop
        invariant
            hay@ == haystack.spec_bytes(),
            pin@ == needle.spec_bytes(),
            hay@.len() <= usize::MAX,
            last == hay@.len() - pin@.len(),
            at <= last,
            forall|before: int| 0 <= before < at ==> !occurs_at(pin@, hay@, before),
        decreases last - at,
    {
        let mut same: usize = 0;
        let mut matching = true;
        while matching && same < pin.len()
            invariant
                hay@.len() <= usize::MAX,
                last == hay@.len() - pin@.len(),
                at <= last,
                same <= pin@.len(),
                forall|k: int| 0 <= k < same ==> hay@[at + k] == pin@[k],
                !matching ==> same < pin@.len() && hay@[at + same] != pin@[same as int],
            decreases pin@.len() - same + if matching { 1int } else { 0int },
        {
            if hay[at + same] == pin[same] {
                same = same + 1;
            } else {
                matching = false;
            }
        }
        if matching {
            assert(hay@.subrange(at as int, at + pin@.len()) =~= pin@);
            assert(occurs_at(pin@, hay@, at as int));
            return true;
        }
        assert(!occurs_at(pin@, hay@, at as int)) by {
            if occurs_at(pin@, hay@, at as int) {
                assert(hay@.subrange(at as int, at + pin@.len())[same as int] == pin@[same as int]);
            }
        }
        if at == last {
            assert forall|any: int| !occurs_at(pin@, hay@, any) by {}
            return false;
        }
        at = at + 1;
    }
}

/// Whether `choice` is the reader to use among those found: the first whose
/// name holds `preferred`; failing that, the first of all; with no reader,
/// none.
pub open spec fn is_chosen_reader(names: Seq<Seq<u8>>, preferred: Seq<u8>, choice: Option<int>)
    -> bool {
    match choice {
        Some(at) => {
            &&& 0 <= at < names.len()
            &&& forall|i: int| 0 <= i < at ==> !occurs_in(preferred, #[trigger] names[i])
            &&& occurs_in(preferred, names[at]) || (at == 0 && forall|i: int|
                0 <= i < names.len() ==> !occurs_in(preferred, #[trigger] names[i]))
        },
        None => names.len() == 0,
    }
}

/// The UTF-8 bytes of each of `names`.
pub open spec fn names_bytes(names: Seq<String>) -> Seq<Seq<u8>> {
    Seq::new(names.len(), |i: int| encode_utf8(names[i]@))
}

/// The position in `choice`, if any.
pub open spec fn position_of(choice: Option<usize>) -> Option<int> {
    match choice {
        Some(at) => Some(at as int),
        None => None,
    }
}

/// Picks the reader to use among those found, by its position in `names`.
pub fn choose_reader(names: &Vec<String>, preferred: &str) -> (choice: Option<usize>)
    ensures
        is_chosen_reader(names_bytes(names@), preferred.spec_bytes(), position_of(choice)),
{
    let ghost all = names_bytes(names@);
    let ghost pin = preferred.spec_bytes();
    let mut at: usize = 0;
    while at < names.len()
        invariant
            at <= names@.len(),
            all == names_bytes(names@),
            pin == preferred.spec_bytes(),
            forall|i: int| 0 <= i < at ==> !occurs_in(pin, #[trigger] all[i]),
        decreases names@.len() - at,
    {
        if contains_text(names[at].as_str(), preferred) {
            return Some(at);
        }
        at = at + 1;
    }
    if names.len() > 0 {
        Some(0)
    } else {
        None
    }
}

/// What is reported to a wait for a card.
#[derive(Debug, PartialEq, Eq)]
pub enum WaitEvent {
    /// The time that has passed since the wait began.
    Clock { elapsed_millis: u64 },
    /// The reply to a request for the UID.
    Probed(Reply),
}

/// What a [`WaitEvent`] stands for.
#[verifier::ext_equal]
pub enum WaitEventView {
    Clock { elapsed_millis: u64 },
    Probed(ReplyView),
}

impl View for WaitEvent {
    type V = WaitEventView;

    open spec fn view(&self) -> WaitEventView {
        match self {
            WaitEvent::Clock { elapsed_millis } => WaitEventView::Clock {
                elapsed_millis: *elapsed_millis,
            },
            WaitEvent::Probed(reply) => WaitEventView::Probed(reply@),
        }
    }
}

/// What a wait for a card asks for next.
#[derive(Debug, PartialEq, Eq)]
pub enum WaitAction {
    /// Run the exchange and report the reply as `Probed`.
    Probe(Exchange),
    /// Sleep, then report the time as `Clock`.
    Sleep { millis: u64 },
    /// A card answered; this is its UID. The wait is over.
    Found(String),
    /// The wait is over without a card.
    Failed(ErrorKind),
}

/// What a [`WaitAction`] stands for.
#[verifier::ext_equal]
pub enum WaitActionView {
    Probe(ExchangeView),
    Sleep { millis: u64 },
    Found(Seq<char>),
    Failed(ErrorKind),
}

impl View for WaitAction {
    type V = WaitActionView;

    open spec fn view(&self) -> WaitActionView {
        match self {
            WaitAction::Probe(exchange) => WaitActionView::Probe(exchange@),
            WaitAction::Sleep { millis } => WaitActionView::Sleep { millis: *millis },
            WaitAction::Found(uid) => WaitActionView::Found(uid@),
            WaitAction::Failed(kind) => WaitActionView::Failed(*kind),
        }
    }
}

/// Whether a wait of `timeout_secs` seconds is over after `elapsed_millis`.
pub open spec fn timed_out(timeout_secs: u64, elapsed_millis: u64) -> bool {
    elapsed_millis as int >= 1000 * timeout_secs as int
}

/// One step of a wait for a card.
///
/// When the clock is reported, the wait ends with `Timeout` if the time is
/// up and probes for a card otherwise. When a probe is reported, the wait
/// ends with the UID if a card answered and sleeps for
/// [`PROBE_INTERVAL_MS`] otherwise.
pub open spec fn wait_step(timeout_secs: u64, event: WaitEventView) -> WaitActionView {
    match event {
        WaitEventView::Clock { elapsed_millis } => if timed_out(timeout_secs, elapsed_millis) {
            WaitActionView::Failed(ErrorKind::Timeout)
        } else {
            WaitActionView::Probe(single_command(uid_command_bytes()))
        },
        WaitEventView::Probed(reply) => match uid_of(reply) {
            Ok(uid) => WaitActionView::Found(uid),
            Err(_) => WaitActionView::Sleep { millis: PROBE_INTERVAL_MS },
        },
    }
}

/// A session with one reader.
#[derive(Debug)]
pub struct NFCReader {
    reader_name: Option<String>,
}

impl NFCReader {
    /// The name of the reader selected, if any.
    pub closed spec fn selected(&self) -> Option<Seq<char>> {
        text_of(self.reader_name)
    }

    /// A session for which no reader has been selected yet.
    pub fn new() -> (reader: NFCReader)
        ensures
            reader.selected() is None,
    {
        NFCReader { reader_name: None }
    }

    /// Names the readers that the card service has found.
    ///
    /// `found` is what the service answered: `None` where the service itself
    /// is not available, which is `NoDriver`; else one entry for each reader,
    /// with `None` for a name that is not text, which is listed as
    /// `Unknown`.
    pub fn list_readers(&self, found: Option<Vec<Option<String>>>) -> (result: Result<
        Vec<String>,
        ErrorKind,
    >)
        ensures
            match (found, result) {
                (None, Err(kind)) => kind == ErrorKind::NoDriver,
                (Some(found), Ok(names)) => names@.len() == found@.len() && forall|i: int|
                    0 <= i < found@.len() ==> (#[trigger] names@[i])@ == match found@[i] {
                        Some(name) => name@,
                        None => "Unknown"@,
                    },
                _ => false,
            },
    {
        match found {
            None => Err(ErrorKind::NoDriver),
            Some(found) => {
                let mut names: Vec<String> = Vec::new();
                let mut at: usize = 0;
                while at < found.len()
                    invariant
                        at <= found@.len(),
                        names@.len() == at,
                        forall|i: int|
                            0 <= i < at ==> (#[trigger] names@[i])@ == match found@[i] {
                                Some(name) => name@,
                                None => "Unknown"@,
                            },
                    decreases found@.len() - at,
                {
                    names.push(
                        match &found[at] {
                            Some(name) => name.clone(),
                            None => String::from_str("Unknown"),
                        },
                    );
                    at = at + 1;
                }
                Ok(names)
            },
        }
    }

    /// Whether a reader has been selected.
    pub fn has_reader(&self) -> (selected: bool)
        ensures
            selected == self.selected() is Some,
    {
        self.reader_name.is_some()
    }

    /// The name of the reader selected, if any.
    pub fn reader_name(&self) -> (name: Option<String>)
        ensures
            text_of(name) == self.selected(),
    {
        match &self.reader_name {
            Some(name) => Some(name.clone()),
            None => None,
        }
    }

    /// Selects the reader to talk to, by name.
    ///
    /// A name that holds a zero byte cannot name a reader: it is refused with
    /// `NoReader`, and the selection stays as it was.
    pub fn select_reader(&mut self, reader_name: &str) -> (result: Result<(), ErrorKind>)
        ensures
            match result {
                Ok(()) => !reader_name.spec_bytes().contains(0u8) && final(self).selected()
                    == Some(reader_name@),
                Err(kind) => reader_name.spec_bytes().contains(0u8) && kind == ErrorKind::NoReader
                    && final(self).selected() == old(self).selected(),
            },
    {
        let bytes = reader_name.as_bytes();
        let mut at: usize = 0;
        while at < bytes.len()
            invariant
                at <= bytes@.len(),
                bytes@ == reader_name.spec_bytes(),
                forall|i: int| 0 <= i < at ==> bytes@[i] != 0,
            decreases bytes@.len() - at,
        {
            if bytes[at] == 0 {
                return Err(ErrorKind::NoReader);
            }
            at = at + 1;
        }
        self.reader_name = Some(reader_name.to_owned());
        Ok(())
    }

    /// The exchange that lights the reader in `color` (1 green, 2 red, 3
    /// orange, else dark) for `duration_ms`.
    ///
    /// Signals are best effort: whatever comes of the exchange, the
    /// operation that asked for the signal goes on.
    pub fn set_led(&self, color: u8, duration_ms: u16) -> (result: Result<Exchange, ErrorKind>)
        ensures
            match result {
                Ok(exchange) => self.selected() is Some && exchange@ == single_command(
                    led_command_bytes(color, duration_ms),
                ),
                Err(kind) => self.selected() is None && kind == ErrorKind::NoReader,
            },
    {
        if self.reader_name.is_none() {
            return Err(ErrorKind::NoReader);
        }
        Ok(one_command(led_command(color, duration_ms)))
    }

    /// The exchange that shows `signal`.
    pub fn signal(&self, signal: Signal) -> (result: Result<Exchange, ErrorKind>)
        ensures
            match result {
                Ok(exchange) => self.selected() is Some && exchange@ == single_command(
                    led_command_bytes(signal.color(), signal.duration_ms()),
                ),
                Err(kind) => self.selected() is None && kind == ErrorKind::NoReader,
            },
    {
        match signal {
            Signal::Success => self.set_led(1, 2000),
            Signal::Error => self.set_led(2, 2000),
            Signal::Processing => self.set_led(3, 1000),
        }
    }

    /// The exchange that signals success: green for two seconds.
    pub fn signal_success(&self) -> (result: Result<Exchange, ErrorKind>)
        ensures
            match result {
                Ok(exchange) => self.selected() is Some && exchange@ == single_command(
                    led_command_bytes(1, 2000),
                ),
                Err(kind) => self.selected() is None && kind == ErrorKind::NoReader,
            },
    {
        self.signal(Signal::Success)
    }

    /// The exchange that signals failure: red for two seconds.
    pub fn signal_error(&self) -> (result: Result<Exchange, ErrorKind>)
        ensures
            match result {
                Ok(exchange) => self.selected() is Some && exchange@ == single_command(
                    led_command_bytes(2, 2000),
                ),
                Err(kind) => self.selected() is None && kind == ErrorKind::NoReader,
            },
    {
        self.signal(Signal::Error)
    }

    /// The exchange that signals work under way: orange for one second.
    pub fn signal_processing(&self) -> (result: Result<Exchange, ErrorKind>)
        ensures
            match result {
                Ok(exchange) => self.selected() is Some && exchange@ == single_command(
                    led_command_bytes(3, 1000),
                ),
                Err(kind) => self.selected() is None && kind == ErrorKind::NoReader,
            },
    {
        self.signal(Signal::Processing)
    }

    /// The exchange that asks for the UID of the card on the reader.
    pub fn request_uid(&self) -> (result: Result<Exchange, ErrorKind>)
        ensures
            match result {
                Ok(exchange) => self.selected() is Some && exchange@ == single_command(
                    uid_command_bytes(),
                ),
                Err(kind) => self.selected() is None && kind == ErrorKind::NoReader,
            },
    {
        if self.reader_name.is_none() {
            return Err(ErrorKind::NoReader);
        }
        Ok(one_command(uid_command()))
    }

    /// Reads the UID of the card out of the reply to
    /// [`request_uid`](Self::request_uid).
    ///
    /// The UID is returned in upper-case hexadecimal. Without a connection or
    /// an answer there is no card: `NoCard`.
    pub fn read_card_uid(&self, reply: &Reply) -> (result: Result<String, ErrorKind>)
        ensures
            text_or_error(result) == if self.selected() is None {
                Err(ErrorKind::NoReader)
            } else {
                uid_of(reply@)
            },
    {
        if self.reader_name.is_none() {
            return Err(ErrorKind::NoReader);
        }
        uid_from(reply)
    }

    /// One step of waiting for a card for at most `timeout_secs` seconds.
    ///
    /// The caller starts by reporting the clock, runs the probe it is given,
    /// reports the reply, sleeps when told to, reports the clock again, and
    /// so on until the wait is over. The wait never ends with `Timeout`
    /// before the time is up, and always does once it is.
    pub fn wait_for_card(&self, timeout_secs: u64, event: &WaitEvent) -> (action: WaitAction)
        ensures
            action@ == if self.selected() is None {
                WaitActionView::Failed(ErrorKind::NoReader)
            } else {
                wait_step(timeout_secs, event@)
            },
    {
        if self.reader_name.is_none() {
            return WaitAction::Failed(ErrorKind::NoReader);
        }
        match event {
            WaitEvent::Clock { elapsed_millis } => {
                if *elapsed_millis / 1000 >= timeout_secs {
                    WaitAction::Failed(ErrorKind::Timeout)
                } else {
                    WaitAction::Probe(one_command(uid_command()))
                }
            },
            WaitEvent::Probed(reply) => match uid_from(reply) {
                Ok(uid) => WaitAction::Found(uid),
                Err(_) => WaitAction::Sleep { millis: PROBE_INTERVAL_MS },
            },
        }
    }

    /// The exchange that reads the pages reserved for the hash.
    pub fn request_hash(&self) -> (result: Result<Exchange, ErrorKind>)
        ensures
            match result {
                Ok(exchange) => self.selected() is Some && exchange@ == page_reads(
                    FIRST_PAGE,
                    PAGE_COUNT as nat,
                ),
                Err(kind) => self.selected() is None && kind == ErrorKind::NoReader,
            },
    {
        if self.reader_name.is_none() {
            return Err(ErrorKind::NoReader);
        }
        Ok(read_pages_exchange(FIRST_PAGE, PAGE_COUNT))
    }

    /// Reads the hash stored on the card out of the reply to
    /// [`request_hash`](Self::request_hash).
    ///
    /// Every page must have been answered in full, else the result is
    /// `ReadError` (`NoCard` without a connection). The pages are then
    /// decoded as [`decode`](crate::codec::decode) does.
    pub fn read_hash_from_card(&self, reply: &Reply) -> (result: Result<String, ErrorKind>)
        ensures
            text_or_error(result) == if self.selected() is None {
                Err(ErrorKind::NoReader)
            } else {
                hash_of(reply@)
            },
    {
        if self.reader_name.is_none() {
            return Err(ErrorKind::NoReader);
        }
        match pages_from(reply, PAGE_COUNT) {
            Ok(chunks) => {
                assert(joined(chunks@) == page_bytes(reply@, PAGE_COUNT as nat));
                decode(chunks.as_slice())
            },
            Err(kind) => Err(kind),
        }
    }

    /// The exchange that clears whatever an earlier session left half done:
    /// connect and reset the card. Without a reader there is nothing to
    /// clear.
    pub fn force_disconnect(&self) -> (exchange: Option<Exchange>)
        ensures
            match exchange {
                Some(exchange) => self.selected() is Some && exchange@ == reset_only(),
                None => self.selected() is None,
            },
    {
        if self.reader_name.is_none() {
            return None;
        }
        let exchange = Exchange {
            mode: ShareMode::Shared,
            commands: Vec::new(),
            disposition: Disposition::ResetCard,
        };
        assert(exchange@.commands =~= Seq::<Seq<u8>>::empty());
        Some(exchange)
    }
}

/// Wraps one command into an exchange over a shared connection.
fn one_command(command: Vec<u8>) -> (exchange: Exchange)
    ensures
        exchange@ == single_command(command@),
{
    let mut commands: Vec<Vec<u8>> = Vec::new();
    commands.push(command);
    let exchange = Exchange {
        mode: ShareMode::Shared,
        commands,
        disposition: Disposition::LeaveCard,
    };
    assert(exchange@.commands =~= seq![command@]);
    exchange
}

/// Builds the exchange that reads `count` pages from `first_page` on.
pub fn read_pages_exchange(first_page: u8, count: usize) -> (exchange: Exchange)
    requires
        first_page + count <= 256,
    ensures
        exchange@ == page_reads(first_page, count as nat),
{
    let mut commands: Vec<Vec<u8>> = Vec::new();
    let mut page: usize = 0;
    while page < count
        invariant
            page <= count,
            first_page + count <= 256,
            commands@.len() == page,
            forall|i: int|
                0 <= i < page ==> (#[trigger] commands@[i])@ == read_command_bytes(
                    (first_page + i) as u8,
                ),
        decreases count - page,
    {
        commands.push(read_command((first_page as usize + page) as u8));
        page = page + 1;
    }
    let exchange = Exchange {
        mode: ShareMode::Shared,
        commands,
        disposition: Disposition::LeaveCard,
    };
    assert(exchange@.commands =~= page_reads(first_page, count as nat).commands);
    exchange
}

/// Reads the UID out of a reply.
fn uid_from(reply: &Reply) -> (result: Result<String, ErrorKind>)
    ensures
        text_or_error(result) == uid_of(reply@),
{
    match reply {
        Reply::NoConnection => Err(ErrorKind::NoCard),
        Reply::Answers(answers) => {
            if answers.len() == 0 {
                return Err(ErrorKind::NoCard);
            }
            match parse_uid(answers[0].as_slice()) {
                Some(uid) => Ok(uid),
                None => Err(ErrorKind::NoCard),
            }
        },
    }
}

/// Reads `count` pages out of the reply to a read of as many pages.
pub fn pages_from(reply: &Reply, count: usize) -> (result: Result<Vec<[u8; 4]>, ErrorKind>)
    ensures
        match result {
            Ok(chunks) => page_fault(reply@, count as nat) is None && chunks@.len() == count
                && joined(chunks@) == page_bytes(reply@, count as nat),
            Err(kind) => page_fault(reply@, count as nat) == Some(kind),
        },
{
    match reply {
        Reply::NoConnection => Err(ErrorKind::NoCard),
        Reply::Answers(answers) => {
            let ghost all = byte_rows(answers@);
            if answers.len() < count {
                return Err(ErrorKind::ReadError);
            }
            let mut chunks: Vec<[u8; 4]> = Vec::new();
            let mut page: usize = 0;
            while page < count
                invariant
                    page <= count <= answers@.len(),
                    all == byte_rows(answers@),
                    reply@ == ReplyView::Answers(all),
                    chunks@.len() == page,
                    forall|i: int| 0 <= i < page ==> holds_page(#[trigger] all[i]),
                    forall|i: int| 0 <= i < page ==> (#[trigger] chunks@[i])@ == all[i].take(4),
                decreases count - page,
            {
                match parse_page(answers[page].as_slice()) {
                    Ok(chunk) => {
                        chunks.push(chunk);
                    },
                    Err(kind) => {
                        assert(!holds_page(all[page as int]));
                        return Err(kind);
                    },
                }
                page = page + 1;
            }
            assert(joined(chunks@) =~= page_bytes(reply@, count as nat)) by {
                assert forall|i: int| 0 <= i < 4 * count implies joined(chunks@)[i] == page_bytes(
                    reply@,
                    count as nat,
                )[i] by {
                    assert(chunks@[i / 4]@ == all[i / 4].take(4));
                }
            }
            Ok(chunks)
        },
    }
}

} // verus!
