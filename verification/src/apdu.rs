//! The commands that are sent to the reader and what its answers mean.
//!
//! Every answer of the reader ends with a status word of two bytes; `90 00`
//! stands for success. What precedes the status word is the data asked for.

use vstd::prelude::*;
use crate::errors::ErrorKind;
use crate::text::{hex_text, to_hex};

verus! {

/// How a connection to the reader is shared with other programs.
#[derive(Clone, Copy, Debug, PartialEq, Eq, Structural)]
pub enum ShareMode {
    /// Others may talk to the card at the same time.
    Shared,
    /// Nobody else may talk to the card.
    Exclusive,
}

/// What happens to the card when a connection ends.
#[derive(Clone, Copy, Debug, PartialEq, Eq, Structural)]
pub enum Disposition {
    /// The card is left as it is.
    LeaveCard,
    /// The card is reset, which clears whatever an earlier connection left
    /// half done.
    ResetCard,
}

/// The bytes of each of `rows`.
pub open spec fn byte_rows(rows: Seq<Vec<u8>>) -> Seq<Seq<u8>> {
    Seq::new(rows.len(), |i: int| rows[i]@)
}

/// One unit of work on the reader: connect, send the commands in order until
/// one is not answered, disconnect.
#[derive(Debug, PartialEq, Eq)]
pub struct Exchange {
    pub mode: ShareMode,
    pub commands: Vec<Vec<u8>>,
    pub disposition: Disposition,
}

/// What an [`Exchange`] stands for.
#[verifier::ext_equal]
pub struct ExchangeView {
    pub mode: ShareMode,
    pub commands: Seq<Seq<u8>>,
    pub disposition: Disposition,
}

impl View for Exchange {
    type V = ExchangeView;

    open spec fn view(&self) -> ExchangeView {
        ExchangeView {
            mode: self.mode,
            commands: byte_rows(self.commands@),
            disposition: self.disposition,
        }
    }
}

/// What came of an [`Exchange`].
#[derive(Debug, PartialEq, Eq)]
pub enum Reply {
    /// No connection could be made: no card, or no reader.
    NoConnection,
    /// The answers to the commands, in order. There are fewer answers than
    /// commands where a command was not answered.
    Answers(Vec<Vec<u8>>),
}

/// What a [`Reply`] stands for.
#[verifier::ext_equal]
pub enum ReplyView {
    NoConnection,
    Answers(Seq<Seq<u8>>),
}

impl View for Reply {
    type V = ReplyView;

    open spec fn view(&self) -> ReplyView {
        match self {
            Reply::NoConnection => ReplyView::NoConnection,
            Reply::Answers(answers) => ReplyView::Answers(byte_rows(answers@)),
        }
    }
}

impl ReplyView {
    /// The answer to the only command of an exchange, if there is one.
    pub open spec fn single(self) -> Option<Seq<u8>> {
        match self {
            ReplyView::Answers(answers) if answers.len() > 0 => Some(answers[0]),
            _ => None,
        }
    }
}

/// The command that asks the reader for the UID of the card.
pub open spec fn uid_command_bytes() -> Seq<u8> {
    seq![0xFFu8, 0xCAu8, 0x00u8, 0x00u8, 0x00u8]
}

/// The command that reads the four bytes of `page`.
pub open spec fn read_command_bytes(page: u8) -> Seq<u8> {
    seq![0xFFu8, 0xB0u8, 0x00u8, page, 0x04u8]
}

/// The command that writes `chunk` to `page`.
pub open spec fn write_command_bytes(page: u8, chunk: Seq<u8>) -> Seq<u8> {
    seq![0xFFu8, 0x00u8, 0x00u8, 0x00u8, 0x06u8, 0xA2u8, page] + chunk
}

/// The state of the two lights of the reader for a colour: 1 is green, 2 is
/// red, 3 is both, which shows as orange; anything else is dark.
pub open spec fn led_state(color: u8) -> u8 {
    if color == 1 {
        0x01
    } else if color == 2 {
        0x10
    } else if color == 3 {
        0x11
    } else {
        0x00
    }
}

/// A duration in the reader's unit of 100 milliseconds, as far as it fits
/// one byte: the low eight bits of the number of units.
pub open spec fn led_duration_units(duration_ms: u16) -> u8 {
    ((duration_ms as int / 100) % 256) as u8
}

/// The command that lights the reader in `color` for `duration_ms`, once and
/// without the buzzer.
pub open spec fn led_command_bytes(color: u8, duration_ms: u16) -> Seq<u8> {
    seq![
        0xFFu8,
        0x00u8,
        0x40u8,
        led_state(color),
        0x04u8,
        led_duration_units(duration_ms),
        led_duration_units(duration_ms),
        0x01u8,
        0x00u8,
    ]
}

/// The status word of an answer: its last two bytes.
pub open spec fn status_word(answer: Seq<u8>) -> Option<(u8, u8)> {
    if answer.len() >= 2 {
        Some((answer[answer.len() - 2], answer[answer.len() - 1]))
    } else {
        None
    }
}

/// Whether an answer reports that a page was written: status `90 00`, or
/// `63 00`, with which some cards acknowledge a write.
pub open spec fn write_accepted(answer: Seq<u8>) -> bool {
    status_word(answer) == Some((0x90u8, 0x00u8)) || status_word(answer) == Some((0x63u8, 0x00u8))
}

/// The UID in an answer: what precedes the status word, in upper-case
/// hexadecimal. An answer without a status word holds no UID.
pub open spec fn uid_in(answer: Seq<u8>) -> Option<Seq<char>> {
    if answer.len() >= 2 {
        Some(hex_text(answer.take(answer.len() - 2), true))
    } else {
        None
    }
}

/// Whether an answer to a read holds a whole page before its status word.
pub open spec fn holds_page(answer: Seq<u8>) -> bool {
    answer.len() >= 6
}

/// Builds the command that asks for the UID.
pub fn uid_command() -> (command: Vec<u8>)
    ensures
        command@ == uid_command_bytes(),
{
    vec![0xFF, 0xCA, 0x00, 0x00, 0x00]
}

/// Builds the command that reads `page`.
pub fn read_command(page: u8) -> (command: Vec<u8>)
    ensures
        command@ == read_command_bytes(page),
{
    vec![0xFF, 0xB0, 0x00, page, 0x04]
}

/// Builds the command that writes `chunk` to `page`.
pub fn write_command(page: u8, chunk: &[u8; 4]) -> (command: Vec<u8>)
    ensures
        command@ == write_command_bytes(page, chunk@),
{
    let command = vec![0xFF, 0x00, 0x00, 0x00, 0x06, 0xA2, page, chunk[0], chunk[1], chunk[2],
        chunk[3]];
    assert(command@ =~= write_command_bytes(page, chunk@));
    command
}

/// Builds the command that lights the reader.
pub fn led_command(color: u8, duration_ms: u16) -> (command: Vec<u8>)
    ensures
        command@ == led_command_bytes(color, duration_ms),
{
    let state: u8 = if color == 1 {
        0x01
    } else if color == 2 {
        0x10
    } else if color == 3 {
        0x11
    } else {
        0x00
    };
    let units: u8 = ((duration_ms / 100) % 256) as u8;
    vec![0xFF, 0x00, 0x40, state, 0x04, units, units, 0x01, 0x00]
}

/// Tells whether an answer reports that a page was written.
pub fn is_write_accepted(answer: &[u8]) -> (accepted: bool)
    ensures
        accepted == write_accepted(answer@),
{
    let len = answer.len();
    if len < 2 {
        return false;
    }
    let sw1 = answer[len - 2];
    let sw2 = answer[len - 1];
    (sw1 == 0x90 && sw2 == 0x00) || (sw1 == 0x63 && sw2 == 0x00)
}

/// Reads the UID out of an answer.
pub fn parse_uid(answer: &[u8]) -> (uid: Option<String>)
    ensures
        crate::records::text_of(uid) == uid_in(answer@),
{
    let len = answer.len();
    if len < 2 {
        return None;
    }
    let mut data: Vec<u8> = Vec::new();
    let mut at: usize = 0;
    while at < len - 2
        invariant
            len == answer@.len(),
            len >= 2,
            at <= len - 2,
            data@ == answer@.take(at as int),
        decreases len - at,
    {
        data.push(answer[at]);
        assert(answer@.take(at + 1) =~= answer@.take(at as int).push(answer@[at as int]));
        at = at + 1;
    }
    Some(to_hex(data.as_slice(), true))
}

/// Reads one page out of an answer to a read: its first four bytes. An
/// answer too short to hold a page and a status word is a `ReadError`.
pub fn parse_page(answer: &[u8]) -> (page: Result<[u8; 4], ErrorKind>)
    ensures
        match page {
            Ok(chunk) => holds_page(answer@) && chunk@ == answer@.take(4),
            Err(kind) => !holds_page(answer@) && kind == ErrorKind::ReadError,
        },
{
    if answer.len() < 6 {
        return Err(ErrorKind::ReadError);
    }
    let chunk = [answer[0], answer[1], answer[2], answer[3]];
    assert(chunk@ =~= answer@.take(4));
    Ok(chunk)
}

} // verus!
