//! The rows that the persistence layer hands to the core and takes back.
//!
//! Each record is plain data. Its view replaces every text field by the
//! sequence of its characters, which is what contracts compare.

use vstd::prelude::*;

verus! {

/// A resident of the building.
#[derive(Debug, PartialEq, Eq)]
pub struct ResidentData {
    pub id: u32,
    pub apt: String,
    pub first_name: String,
    pub last_name: String,
    pub linked: bool,
}

/// What a [`ResidentData`] stands for.
#[verifier::ext_equal]
pub struct ResidentView {
    pub id: u32,
    pub apt: Seq<char>,
    pub first_name: Seq<char>,
    pub last_name: Seq<char>,
    pub linked: bool,
}

impl View for ResidentData {
    type V = ResidentView;

    open spec fn view(&self) -> ResidentView {
        ResidentView {
            id: self.id,
            apt: self.apt@,
            first_name: self.first_name@,
            last_name: self.last_name@,
            linked: self.linked,
        }
    }
}

/// A card bound to a resident. `hash` is the identity written on the card.
#[derive(Debug, PartialEq, Eq)]
pub struct CardData {
    pub id: u32,
    pub resident_id: u32,
    pub apt: String,
    pub added_date: String,
    pub hash: String,
}

/// What a [`CardData`] stands for.
#[verifier::ext_equal]
pub struct CardView {
    pub id: u32,
    pub resident_id: u32,
    pub apt: Seq<char>,
    pub added_date: Seq<char>,
    pub hash: Seq<char>,
}

impl View for CardData {
    type V = CardView;

    open spec fn view(&self) -> CardView {
        CardView {
            id: self.id,
            resident_id: self.resident_id,
            apt: self.apt@,
            added_date: self.added_date@,
            hash: self.hash@,
        }
    }
}

/// One line of the audit log.
#[derive(Debug, PartialEq, Eq)]
pub struct LogData {
    pub id: u32,
    pub action_type: String,
    pub action: String,
    pub date_time: String,
}

/// What a [`LogData`] stands for.
#[verifier::ext_equal]
pub struct LogView {
    pub id: u32,
    pub action_type: Seq<char>,
    pub action: Seq<char>,
    pub date_time: Seq<char>,
}

impl View for LogData {
    type V = LogView;

    open spec fn view(&self) -> LogView {
        LogView {
            id: self.id,
            action_type: self.action_type@,
            action: self.action@,
            date_time: self.date_time@,
        }
    }
}

/// A package waiting in the room, or one that has left it.
///
/// `status` is `"pending"` until the package is handed out and `"collected"`
/// afterwards.
#[derive(Debug, PartialEq, Eq)]
pub struct PackageData {
    pub id: u32,
    pub apt: String,
    pub package_number: String,
    pub tracking_number: Option<String>,
    pub date_time: String,
    pub status: String,
}

/// What a [`PackageData`] stands for.
#[verifier::ext_equal]
pub struct PackageView {
    pub id: u32,
    pub apt: Seq<char>,
    pub package_number: Seq<char>,
    pub tracking_number: Option<Seq<char>>,
    pub date_time: Seq<char>,
    pub status: Seq<char>,
}

impl View for PackageData {
    type V = PackageView;

    open spec fn view(&self) -> PackageView {
        PackageView {
            id: self.id,
            apt: self.apt@,
            package_number: self.package_number@,
            tracking_number: text_of(self.tracking_number),
            date_time: self.date_time@,
            status: self.status@,
        }
    }
}

/// The characters of an optional text.
pub open spec fn text_of(text: Option<String>) -> Option<Seq<char>> {
    match text {
        Some(s) => Some(s@),
        None => None,
    }
}

/// The resident to whom a card belongs, as a verification shows it.
#[derive(Debug, PartialEq, Eq)]
pub struct CardOwner {
    pub resident_id: u32,
    pub apt: String,
    pub first_name: String,
    pub last_name: String,
}

/// What a [`CardOwner`] stands for.
#[verifier::ext_equal]
pub struct OwnerView {
    pub resident_id: u32,
    pub apt: Seq<char>,
    pub first_name: Seq<char>,
    pub last_name: Seq<char>,
}

impl View for CardOwner {
    type V = OwnerView;

    open spec fn view(&self) -> OwnerView {
        OwnerView {
            resident_id: self.resident_id,
            apt: self.apt@,
            first_name: self.first_name@,
            last_name: self.last_name@,
        }
    }
}

} // verus!
