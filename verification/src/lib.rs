//! Access control for a package room built around one shared contactless-card
//! reader.
//!
//! A background poller keeps verifying whatever card lies on the reader while
//! foreground workflows (linking a card to a resident, handing out packages)
//! need the same device exclusively for a short time. This crate holds the
//! rules of that arrangement: who may touch the reader, what is written to a
//! card and how it is read back, and what each workflow does next.
//!
//! The crate does not talk to the reader, the store or the operator. Its
//! caller does: the poller, the workflows and the sessions with the reader
//! are machines that are told what happened and answer what to do next.
//!
//! - [`lock`]: the arbitration lock of the reader and the pause flag.
//! - [`poller`]: the background verification of cards.
//! - [`workflow`]: linking a card and collecting packages with a card.
//! - [`collect`]: who may have which package.
//! - [`codec`]: the identity hash of a card and its layout on the card.
//! - [`apdu`], [`reader`], [`write`]: what is said to the reader, and what
//!   its answers mean.
//! - [`card`], [`room`]: what holds of a whole write, and of the poller and a
//!   workflow side by side.
//! - [`records`], [`tables`], [`errors`], [`text`]: records, their layout as
//!   tables, kinds of failure, numbers as text.

pub mod apdu;
pub mod card;
mod clock;
pub mod codec;
pub mod collect;
pub mod errors;
pub mod lock;
pub mod poller;
pub mod reader;
pub mod records;
pub mod room;
pub mod tables;
pub mod text;
pub mod workflow;
pub mod write;
