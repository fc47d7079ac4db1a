//! The kinds of failure that the core reports.

use vstd::prelude::*;
use vstd::string::*;
use crate::text::{decimal_text, push_decimal};

verus! {

/// The structural kind of a failure.
#[derive(Clone, Copy, Debug, PartialEq, Eq, Structural)]
pub enum ErrorKind {
    /// The platform's card subsystem is not available.
    NoDriver,
    /// No reader has been selected for the session.
    NoReader,
    /// No card is on the reader.
    NoCard,
    /// No card came within the time allowed.
    Timeout,
    /// A page of the card could not be read in full.
    ReadError,
    /// This page could not be written within the attempts allowed.
    WriteFailed(u8),
    /// What was read back from the card differs from what was written.
    VerificationMismatch,
    /// The package is not for the apartment of the card's owner.
    LocationMismatch,
    /// The digest does not fit into the pages reserved for it.
    CapacityExceeded,
    /// The bytes read from the card are no digest text.
    MalformedData,
    /// The resource is in use by someone else.
    Busy,
    /// The record asked for does not exist.
    NotFound,
}

impl ErrorKind {
    /// The short message that a user is shown for this kind of failure.
    pub open spec fn message_text(self) -> Seq<char> {
        match self {
            ErrorKind::NoDriver => "Card reader service is not available"@,
            ErrorKind::NoReader => "No reader selected"@,
            ErrorKind::NoCard => "No card detected"@,
            ErrorKind::Timeout => "Timeout waiting for card"@,
            ErrorKind::ReadError => "Card returned insufficient data"@,
            ErrorKind::WriteFailed(page) => "Failed to write page "@ + decimal_text(page as nat)
                + " after 5 attempts. Card may be write-protected or incompatible."@,
            ErrorKind::VerificationMismatch => "Hash verification failed - data mismatch"@,
            ErrorKind::LocationMismatch => "Package is for another apartment"@,
            ErrorKind::CapacityExceeded => "Hash does not fit on the card"@,
            ErrorKind::MalformedData => "Card holds no readable hash"@,
            ErrorKind::Busy => "Resource is busy"@,
            ErrorKind::NotFound => "Record not found"@,
        }
    }

    /// The short message that a user is shown for this kind of failure.
    pub fn message(&self) -> (text: String)
        ensures
            text@ == self.message_text(),
    {
        match self {
            ErrorKind::NoDriver => String::from_str("Card reader service is not available"),
            ErrorKind::NoReader => String::from_str("No reader selected"),
            ErrorKind::NoCard => String::from_str("No card detected"),
            ErrorKind::Timeout => String::from_str("Timeout waiting for card"),
            ErrorKind::ReadError => String::from_str("Card returned insufficient data"),
            ErrorKind::WriteFailed(page) => {
                let mut text = String::from_str("Failed to write page ");
                push_decimal(&mut text, *page as u32);
                text.append(" after 5 attempts. Card may be write-protected or incompatible.");
                text
            },
            ErrorKind::VerificationMismatch => String::from_str(
                "Hash verification failed - data mismatch",
            ),
            ErrorKind::LocationMismatch => String::from_str("Package is for another apartment"),
            ErrorKind::CapacityExceeded => String::from_str("Hash does not fit on the card"),
            ErrorKind::MalformedData => String::from_str("Card holds no readable hash"),
            ErrorKind::Busy => String::from_str("Resource is busy"),
            ErrorKind::NotFound => String::from_str("Record not found"),
        }
    }
}

} // verus!
