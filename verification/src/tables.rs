//! Records laid out as the rows of a table, for whoever shows them.
//!
//! Each conversion gives the cells of every row as text, and beside them the
//! numbers of the records in the same order, so that a row picked in the
//! table can be found again in the store.

use vstd::prelude::*;
use vstd::string::*;
use crate::collect::{full_name, resident_name};
use crate::records::{
    CardData, CardView, LogData, LogView, PackageData, PackageView, ResidentData, ResidentView,
};
use crate::text::{decimal_text, to_decimal};

verus! {

/// The characters of each cell of a row.
pub open spec fn row_of(cells: Seq<String>) -> Seq<Seq<char>> {
    Seq::new(cells.len(), |i: int| cells[i]@)
}

/// The rows of a table, each as [`row_of`] gives it.
pub open spec fn table_of(rows: Seq<Vec<String>>) -> Seq<Seq<Seq<char>>> {
    Seq::new(rows.len(), |i: int| row_of(rows[i]@))
}

/// The row of a resident: number, apartment, first name, last name, and
/// `true` or `false` for whether a card is linked.
pub open spec fn resident_row(resident: ResidentView) -> Seq<Seq<char>> {
    seq![
        decimal_text(resident.id as nat),
        resident.apt,
        resident.first_name,
        resident.last_name,
        if resident.linked {
            "true"@
        } else {
            "false"@
        },
    ]
}

/// The row of a card: number, apartment, the name of its resident, or
/// `Unknown` where the store holds no such resident, and the date of issue.
pub open spec fn card_row(card: CardView, resident: Option<ResidentView>) -> Seq<Seq<char>> {
    seq![
        decimal_text(card.id as nat),
        card.apt,
        match resident {
            Some(resident) => resident_name(resident),
            None => "Unknown"@,
        },
        card.added_date,
    ]
}

/// The row of a line of the audit log: number, kind, text, date.
pub open spec fn log_row(log: LogView) -> Seq<Seq<char>> {
    seq![decimal_text(log.id as nat), log.action_type, log.action, log.date_time]
}

/// The row of a package: number, apartment, package number, tracking
/// number, or `N/A` where it has none, and date of arrival.
pub open spec fn package_row(package: PackageView) -> Seq<Seq<char>> {
    seq![
        decimal_text(package.id as nat),
        package.apt,
        package.package_number,
        match package.tracking_number {
            Some(number) => number,
            None => "N/A"@,
        },
        package.date_time,
    ]
}

/// Lays out residents as a table.
pub fn convert_resident_data_vec(row_data: Vec<ResidentData>) -> (table: (Vec<Vec<String>>, Vec<u32>))
    ensures
        table.0@.len() == row_data@.len(),
        table.1@.len() == row_data@.len(),
        forall|i: int|
            0 <= i < row_data@.len() ==> #[trigger] table_of(table.0@)[i] == resident_row(
                row_data@[i]@,
            ),
        forall|i: int| 0 <= i < row_data@.len() ==> #[trigger] table.1@[i] == row_data@[i].id,
{
    let mut rows: Vec<Vec<String>> = Vec::new();
    let mut ids: Vec<u32> = Vec::new();
    let mut at: usize = 0;
    while at < row_data.len()
        invariant
            at <= row_data@.len(),
            rows@.len() == at,
            ids@.len() == at,
            forall|i: int|
                0 <= i < at ==> row_of(#[trigger] rows@[i]@) == resident_row(row_data@[i]@),
            forall|i: int| 0 <= i < at ==> #[trigger] ids@[i] == row_data@[i].id,
        decreases row_data@.len() - at,
    {
        let resident = &row_data[at];
        let linked = if resident.linked {
            String::from_str("true")
        } else {
            String::from_str("false")
        };
        let row = vec![
            to_decimal(resident.id),
            resident.apt.clone(),
            resident.first_name.clone(),
            resident.last_name.clone(),
            linked,
        ];
        assert(row_of(row@) =~= resident_row(resident@));
        rows.push(row);
        ids.push(resident.id);
        at = at + 1;
    }
    (rows, ids)
}

/// Lays out cards as a table. Each card comes with its resident, as far as
/// the store holds one.
pub fn convert_card_data_vec(row_data: Vec<(CardData, Option<ResidentData>)>) -> (table: (
    Vec<Vec<String>>,
    Vec<u32>,
))
    ensures
        table.0@.len() == row_data@.len(),
        table.1@.len() == row_data@.len(),
        forall|i: int|
            0 <= i < row_data@.len() ==> #[trigger] table_of(table.0@)[i] == card_row(
                row_data@[i].0@,
                crate::collect::resident_of(row_data@[i].1),
            ),
        forall|i: int| 0 <= i < row_data@.len() ==> #[trigger] table.1@[i] == row_data@[i].0.id,
{
    let mut rows: Vec<Vec<String>> = Vec::new();
    let mut ids: Vec<u32> = Vec::new();
    let mut at: usize = 0;
    while at < row_data.len()
        invariant
            at <= row_data@.len(),
            rows@.len() == at,
            ids@.len() == at,
            forall|i: int|
                0 <= i < at ==> row_of(#[trigger] rows@[i]@) == card_row(
                    row_data@[i].0@,
                    crate::collect::resident_of(row_data@[i].1),
                ),
            forall|i: int| 0 <= i < at ==> #[trigger] ids@[i] == row_data@[i].0.id,
        decreases row_data@.len() - at,
    {
        let card = &row_data[at].0;
        let name = match &row_data[at].1 {
            Some(resident) => full_name(resident),
            None => String::from_str("Unknown"),
        };
        let row = vec![to_decimal(card.id), card.apt.clone(), name, card.added_date.clone()];
        assert(row_of(row@) =~= card_row(
            card@,
            crate::collect::resident_of(row_data@[at as int].1),
        ));
        rows.push(row);
        ids.push(card.id);
        at = at + 1;
    }
    (rows, ids)
}

/// Lays out lines of the audit log as a table.
pub fn convert_log_data_vec(row_data: Vec<LogData>) -> (table: (Vec<Vec<String>>, Vec<u32>))
    ensures
        table.0@.len() == row_data@.len(),
        table.1@.len() == row_data@.len(),
        forall|i: int|
            0 <= i < row_data@.len() ==> #[trigger] table_of(table.0@)[i] == log_row(row_data@[i]@),
        forall|i: int| 0 <= i < row_data@.len() ==> #[trigger] table.1@[i] == row_data@[i].id,
{
    let mut rows: Vec<Vec<String>> = Vec::new();
    let mut ids: Vec<u32> = Vec::new();
    let mut at: usize = 0;
    while at < row_data.len()
        invariant
            at <= row_data@.len(),
            rows@.len() == at,
            ids@.len() == at,
            forall|i: int| 0 <= i < at ==> row_of(#[trigger] rows@[i]@) == log_row(row_data@[i]@),
            forall|i: int| 0 <= i < at ==> #[trigger] ids@[i] == row_data@[i].id,
        decreases row_data@.len() - at,
    {
        let log = &row_data[at];
        let row = vec![
            to_decimal(log.id),
            log.action_type.clone(),
            log.action.clone(),
            log.date_time.clone(),
        ];
        assert(row_of(row@) =~= log_row(log@));
        rows.push(row);
        ids.push(log.id);
        at = at + 1;
    }
    (rows, ids)
}

/// Lays out packages as a table.
pub fn convert_package_data_vec(row_data: Vec<PackageData>) -> (table: (Vec<Vec<String>>, Vec<u32>))
    ensures
        table.0@.len() == row_data@.len(),
        table.1@.len() == row_data@.len(),
        forall|i: int|
            0 <= i < row_data@.len() ==> #[trigger] table_of(table.0@)[i] == package_row(
                row_data@[i]@,
            ),
        forall|i: int| 0 <= i < row_data@.len() ==> #[trigger] table.1@[i] == row_data@[i].id,
{
    let mut rows: Vec<Vec<String>> = Vec::new();
    let mut ids: Vec<u32> = Vec::new();
    let mut at: usize = 0;
    while at < row_data.len()
        invariant
            at <= row_data@.len(),
            rows@.len() == at,
            ids@.len() == at,
            forall|i: int|
                0 <= i < at ==> row_of(#[trigger] rows@[i]@) == package_row(row_data@[i]@),
            forall|i: int| 0 <= i < at ==> #[trigger] ids@[i] == row_data@[i].id,
        decreases row_data@.len() - at,
    {
        let package = &row_data[at];
        let tracking = match &package.tracking_number {
            Some(number) => number.clone(),
            None => String::from_str("N/A"),
        };
        let row = vec![
            to_decimal(package.id),
            package.apt.clone(),
            package.package_number.clone(),
            tracking,
            package.date_time.clone(),
        ];
        assert(row_of(row@) =~= package_row(package@));
        rows.push(row);
        ids.push(package.id);
        at = at + 1;
    }
    (rows, ids)
}

} // verus!
