use package_room::collect::{
    collect_audit, collect_package, collect_package_at, collect_selected, collect_selected_at,
    full_name, Requested,
};
use package_room::errors::ErrorKind;
use package_room::records::{PackageData, ResidentData};

fn resident() -> ResidentData {
    ResidentData {
        id: 7,
        apt: "12B".to_string(),
        first_name: "Ada".to_string(),
        last_name: "Lovelace".to_string(),
        linked: true,
    }
}

fn package(id: u32, apt: &str) -> PackageData {
    PackageData {
        id,
        apt: apt.to_string(),
        package_number: format!("PKG-{}", id),
        tracking_number: Some(format!("T{}", id)),
        date_time: "2024-01-01 09:00:00".to_string(),
        status: "pending".to_string(),
    }
}

#[test]
fn package_for_the_owners_apartment_is_collected() {
    let owner = resident();
    let parcel = package(3, "12B");
    let done = collect_package_at(Some(&owner), Some(&parcel), "2024-01-02 08:30:00").unwrap();
    assert_eq!(done.package.status, "collected");
    assert_eq!(done.package.id, 3);
    assert_eq!(done.package.apt, "12B");
    assert_eq!(done.package.package_number, "PKG-3");
    assert_eq!(done.package.tracking_number, Some("T3".to_string()));
    assert_eq!(done.package.date_time, "2024-01-01 09:00:00");
    assert_eq!(done.collected_by, 7);
    assert_eq!(done.collection_time, "2024-01-02 08:30:00");
    assert_eq!(done.resident_name, "Ada Lovelace");
    assert_eq!(
        done.audit,
        "Package collected: Ada Lovelace (Apt 12B) picked up package #PKG-3"
    );
    // The record handed in is not changed.
    assert_eq!(parcel.status, "pending");
}

#[test]
fn package_for_another_apartment_is_refused() {
    let owner = resident();
    assert_eq!(
        collect_package_at(Some(&owner), Some(&package(4, "9A")), "now"),
        Err(ErrorKind::LocationMismatch)
    );
    assert_eq!(
        collect_package_at(Some(&owner), Some(&package(4, "12b")), "now"),
        Err(ErrorKind::LocationMismatch)
    );
}

#[test]
fn missing_owner_or_package_is_not_found() {
    let owner = resident();
    assert_eq!(collect_package_at(None, Some(&package(3, "12B")), "now"), Err(ErrorKind::NotFound));
    assert_eq!(collect_package_at(Some(&owner), None, "now"), Err(ErrorKind::NotFound));
    assert_eq!(collect_package_at(None, None, "now"), Err(ErrorKind::NotFound));
}

#[test]
fn batch_of_two_with_one_mismatch() {
    let owner = resident();
    let requests = vec![
        Requested { id: 3, package: Some(package(3, "12B")) },
        Requested { id: 4, package: Some(package(4, "9A")) },
    ];
    let report = collect_selected_at(Some(&owner), &requests, "2024-01-02 08:30:00");
    assert_eq!(report.collected, 1);
    assert_eq!(report.failed, vec![4]);
    assert_eq!(report.outcomes.len(), 2);
    assert_eq!(report.outcomes[0].as_ref().unwrap().package.status, "collected");
    assert_eq!(report.outcomes[0].as_ref().unwrap().package.id, 3);
    assert_eq!(report.outcomes[1], Err(ErrorKind::LocationMismatch));
}

#[test]
fn batch_goes_on_after_a_failure() {
    let owner = resident();
    let requests = vec![
        Requested { id: 1, package: None },
        Requested { id: 2, package: Some(package(2, "9A")) },
        Requested { id: 3, package: Some(package(3, "12B")) },
        Requested { id: 5, package: Some(package(5, "12B")) },
    ];
    let report = collect_selected_at(Some(&owner), &requests, "t");
    assert_eq!(report.collected, 2);
    assert_eq!(report.failed, vec![1, 2]);
    assert_eq!(report.outcomes[0], Err(ErrorKind::NotFound));
    assert_eq!(report.outcomes[1], Err(ErrorKind::LocationMismatch));
    assert!(report.outcomes[2].is_ok());
    assert!(report.outcomes[3].is_ok());
}

#[test]
fn batch_without_an_owner_fails_throughout() {
    let requests = vec![
        Requested { id: 3, package: Some(package(3, "12B")) },
        Requested { id: 4, package: Some(package(4, "12B")) },
    ];
    let report = collect_selected_at(None, &requests, "t");
    assert_eq!(report.collected, 0);
    assert_eq!(report.failed, vec![3, 4]);
    assert_eq!(report.outcomes, vec![Err(ErrorKind::NotFound), Err(ErrorKind::NotFound)]);
}

#[test]
fn empty_batch_collects_nothing() {
    let report = collect_selected_at(Some(&resident()), &Vec::new(), "t");
    assert_eq!(report.collected, 0);
    assert!(report.failed.is_empty());
    assert!(report.outcomes.is_empty());
}

#[test]
fn same_package_twice_in_a_batch_is_judged_twice() {
    let requests = vec![
        Requested { id: 3, package: Some(package(3, "12B")) },
        Requested { id: 3, package: Some(package(3, "12B")) },
    ];
    let report = collect_selected_at(Some(&resident()), &requests, "t");
    assert_eq!(report.collected, 2);
}

#[test]
fn name_and_audit_line() {
    assert_eq!(full_name(&resident()), "Ada Lovelace");
    assert_eq!(
        collect_audit(&resident(), &package(9, "12B")),
        "Package collected: Ada Lovelace (Apt 12B) picked up package #PKG-9"
    );
}

#[test]
fn with_status_changes_only_the_status() {
    let parcel = package(3, "12B");
    let changed = parcel.with_status("returned");
    assert_eq!(changed.status, "returned");
    assert_eq!(changed.id, parcel.id);
    assert_eq!(changed.apt, parcel.apt);
    assert_eq!(changed.package_number, parcel.package_number);
    assert_eq!(changed.tracking_number, parcel.tracking_number);
    assert_eq!(changed.date_time, parcel.date_time);
}

#[test]
fn collected_now_carries_the_time_of_the_clock() {
    let owner = resident();
    let done = collect_package(Some(&owner), Some(&package(3, "12B"))).unwrap();
    assert_eq!(done.package.status, "collected");
    let shape: String =
        done.collection_time.chars().map(|c| if c.is_ascii_digit() { '0' } else { c }).collect();
    assert_eq!(shape, "0000-00-00 00:00:00");
    assert_eq!(
        collect_package(Some(&owner), Some(&package(4, "9A"))),
        Err(ErrorKind::LocationMismatch)
    );
    assert_eq!(collect_package(None, None), Err(ErrorKind::NotFound));
}

#[test]
fn batch_collected_now_has_one_time_for_all() {
    let requests = vec![
        Requested { id: 3, package: Some(package(3, "12B")) },
        Requested { id: 4, package: Some(package(4, "9A")) },
        Requested { id: 5, package: Some(package(5, "12B")) },
    ];
    let report = collect_selected(Some(&resident()), &requests);
    assert_eq!(report.collected, 2);
    assert_eq!(report.failed, vec![4]);
    let first = report.outcomes[0].as_ref().unwrap();
    let last = report.outcomes[2].as_ref().unwrap();
    assert_eq!(first.collection_time, last.collection_time);
    assert_eq!(first.collection_time.len(), 19);
}
