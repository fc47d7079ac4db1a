//! Handing out packages to the owner of a verified card.
//!
//! A package is handed out only to a resident of the apartment that it is
//! addressed to. In a batch every package is judged by itself: one that is
//! refused does not keep the others from being handed out, and nothing that
//! was handed out is taken back.

use vstd::prelude::*;
use vstd::string::*;
use crate::clock::local_time;
use crate::errors::ErrorKind;
use crate::records::{PackageData, PackageView, ResidentData, ResidentView};

verus! {

/// A package that has been handed out, and what is to be stored about it.
#[derive(Debug, PartialEq, Eq)]
pub struct Collected {
    /// The package, with its status set to `"collected"`.
    pub package: PackageData,
    /// The resident who took it.
    pub collected_by: u32,
    /// When it was taken.
    pub collection_time: String,
    /// The line for the audit log.
    pub audit: String,
    /// The name of the resident who took it.
    pub resident_name: String,
}

/// What a [`Collected`] stands for.
#[verifier::ext_equal]
pub struct CollectedView {
    pub package: PackageView,
    pub collected_by: u32,
    pub collection_time: Seq<char>,
    pub audit: Seq<char>,
    pub resident_name: Seq<char>,
}

impl View for Collected {
    type V = CollectedView;

    open spec fn view(&self) -> CollectedView {
        CollectedView {
            package: self.package@,
            collected_by: self.collected_by,
            collection_time: self.collection_time@,
            audit: self.audit@,
            resident_name: self.resident_name@,
        }
    }
}

/// One package of a batch: the number asked for, and the package that the
/// store holds under that number, if any.
#[derive(Debug, PartialEq, Eq)]
pub struct Requested {
    pub id: u32,
    pub package: Option<PackageData>,
}

/// What a [`Requested`] stands for.
#[verifier::ext_equal]
pub struct RequestedView {
    pub id: u32,
    pub package: Option<PackageView>,
}

impl View for Requested {
    type V = RequestedView;

    open spec fn view(&self) -> RequestedView {
        RequestedView { id: self.id, package: package_of(self.package) }
    }
}

/// What an optional package stands for.
pub open spec fn package_of(package: Option<PackageData>) -> Option<PackageView> {
    match package {
        Some(package) => Some(package@),
        None => None,
    }
}

/// What an optional reference to a resident stands for.
pub open spec fn owner_of(owner: Option<&ResidentData>) -> Option<ResidentView> {
    match owner {
        Some(owner) => Some(owner@),
        None => None,
    }
}

/// What an optional reference to a package stands for.
pub open spec fn parcel_of(package: Option<&PackageData>) -> Option<PackageView> {
    match package {
        Some(package) => Some(package@),
        None => None,
    }
}

/// What an optional resident stands for.
pub open spec fn resident_of(resident: Option<ResidentData>) -> Option<ResidentView> {
    match resident {
        Some(resident) => Some(resident@),
        None => None,
    }
}

/// What the outcome for one package stands for.
pub open spec fn outcome_of(outcome: Result<Collected, ErrorKind>) -> Result<
    CollectedView,
    ErrorKind,
> {
    match outcome {
        Ok(collected) => Ok(collected@),
        Err(kind) => Err(kind),
    }
}

/// What the outcomes of a batch stand for.
pub open spec fn outcomes_of(outcomes: Seq<Result<Collected, ErrorKind>>) -> Seq<
    Result<CollectedView, ErrorKind>,
> {
    Seq::new(outcomes.len(), |i: int| outcome_of(outcomes[i]))
}

/// What the packages of a batch stand for.
pub open spec fn requests_of(requests: Seq<Requested>) -> Seq<RequestedView> {
    Seq::new(requests.len(), |i: int| requests[i]@)
}

/// The name of a resident: first name, a space, last name.
pub open spec fn resident_name(owner: ResidentView) -> Seq<char> {
    owner.first_name + " "@ + owner.last_name
}

/// The line that the audit log gets when a package is handed out.
pub open spec fn collect_audit_text(owner: ResidentView, package: PackageView) -> Seq<char> {
    "Package collected: "@ + owner.first_name + " "@ + owner.last_name + " (Apt "@ + owner.apt
        + ") picked up package #"@ + package.package_number
}

/// What comes of handing out one package at the time `now`.
///
/// Without an owner, or without the package, the outcome is `NotFound`. A
/// package for another apartment than the owner's is refused with
/// `LocationMismatch`. Otherwise the package is handed out: its status
/// becomes `"collected"` and everything else about it stays.
pub open spec fn collected(owner: Option<ResidentView>, package: Option<PackageView>, now: Seq<char>)
    -> Result<CollectedView, ErrorKind> {
    match (owner, package) {
        (Some(owner), Some(package)) => if owner.apt == package.apt {
            Ok(
                CollectedView {
                    package: PackageView { status: "collected"@, ..package },
                    collected_by: owner.id,
                    collection_time: now,
                    audit: collect_audit_text(owner, package),
                    resident_name: resident_name(owner),
                },
            )
        } else {
            Err(ErrorKind::LocationMismatch)
        },
        _ => Err(ErrorKind::NotFound),
    }
}

/// The number of packages handed out among `outcomes`.
pub open spec fn successes(outcomes: Seq<Result<CollectedView, ErrorKind>>) -> nat
    decreases outcomes.len(),
{
    if outcomes.len() == 0 {
        0
    } else {
        successes(outcomes.drop_last()) + if outcomes.last() is Ok {
            1nat
        } else {
            0nat
        }
    }
}

/// The outcome of each package of a batch, in the order of the batch.
pub open spec fn batch_outcomes(
    owner: Option<ResidentView>,
    requests: Seq<RequestedView>,
    now: Seq<char>,
) -> Seq<Result<CollectedView, ErrorKind>> {
    Seq::new(requests.len(), |i: int| collected(owner, requests[i].package, now))
}

/// The numbers of the packages of a batch that were not handed out, in the
/// order of the batch.
pub open spec fn refused_ids(
    owner: Option<ResidentView>,
    requests: Seq<RequestedView>,
    now: Seq<char>,
) -> Seq<u32>
    decreases requests.len(),
{
    if requests.len() == 0 {
        Seq::empty()
    } else {
        let before = refused_ids(owner, requests.drop_last(), now);
        if collected(owner, requests.last().package, now) is Ok {
            before
        } else {
            before.push(requests.last().id)
        }
    }
}

/// What came of a batch.
#[derive(Debug, PartialEq, Eq)]
pub struct CollectReport {
    /// The outcome for each package, in the order of the batch.
    pub outcomes: Vec<Result<Collected, ErrorKind>>,
    /// How many packages were handed out.
    pub collected: usize,
    /// The numbers of the packages that were not handed out.
    pub failed: Vec<u32>,
}

/// What a [`CollectReport`] stands for.
#[verifier::ext_equal]
pub struct ReportView {
    pub outcomes: Seq<Result<CollectedView, ErrorKind>>,
    pub collected: nat,
    pub failed: Seq<u32>,
}

impl View for CollectReport {
    type V = ReportView;

    open spec fn view(&self) -> ReportView {
        ReportView {
            outcomes: outcomes_of(self.outcomes@),
            collected: self.collected as nat,
            failed: self.failed@,
        }
    }
}

impl ReportView {
    /// The report of a batch without packages.
    pub open spec fn nothing() -> ReportView {
        ReportView { outcomes: Seq::empty(), collected: 0, failed: Seq::empty() }
    }
}

/// The report of a batch: the outcome of each package, how many were handed
/// out, and the numbers of those that were not.
pub open spec fn batch_report(
    owner: Option<ResidentView>,
    requests: Seq<RequestedView>,
    now: Seq<char>,
) -> ReportView {
    ReportView {
        outcomes: batch_outcomes(owner, requests, now),
        collected: successes(batch_outcomes(owner, requests, now)),
        failed: refused_ids(owner, requests, now),
    }
}

impl Collected {
    /// A copy of this record.
    pub fn duplicate(&self) -> (copy: Collected)
        ensures
            copy@ == self@,
    {
        Collected {
            package: self.package.with_status(self.package.status.as_str()),
            collected_by: self.collected_by,
            collection_time: self.collection_time.clone(),
            audit: self.audit.clone(),
            resident_name: self.resident_name.clone(),
        }
    }
}

impl CollectReport {
    /// The report of a batch without packages.
    pub fn nothing() -> (report: CollectReport)
        ensures
            report@ == ReportView::nothing(),
    {
        let report = CollectReport { outcomes: Vec::new(), collected: 0, failed: Vec::new() };
        assert(report@ =~= ReportView::nothing());
        report
    }

    /// A copy of this report.
    pub fn duplicate(&self) -> (copy: CollectReport)
        ensures
            copy@ == self@,
    {
        let mut outcomes: Vec<Result<Collected, ErrorKind>> = Vec::new();
        let mut at: usize = 0;
        while at < self.outcomes.len()
            invariant
                at <= self.outcomes@.len(),
                outcomes@.len() == at,
                forall|i: int|
                    0 <= i < at ==> outcome_of(#[trigger] outcomes@[i]) == outcome_of(
                        self.outcomes@[i],
                    ),
            decreases self.outcomes@.len() - at,
        {
            let outcome = match &self.outcomes[at] {
                Ok(collected) => Ok(collected.duplicate()),
                Err(kind) => Err(*kind),
            };
            outcomes.push(outcome);
            at = at + 1;
        }
        let copy = CollectReport { outcomes, collected: self.collected, failed: self.failed.clone() };
        assert(copy@ =~= self@);
        copy
    }
}

impl PackageData {
    /// A copy of this package with another status.
    pub fn with_status(&self, status: &str) -> (copy: PackageData)
        ensures
            copy@ == (PackageView { status: status@, ..self@ }),
    {
        PackageData {
            id: self.id,
            apt: self.apt.clone(),
            package_number: self.package_number.clone(),
            tracking_number: match &self.tracking_number {
                Some(number) => Some(number.clone()),
                None => None,
            },
            date_time: self.date_time.clone(),
            status: status.to_owned(),
        }
    }
}

/// Builds the name of a resident.
pub fn full_name(owner: &ResidentData) -> (name: String)
    ensures
        name@ == resident_name(owner@),
{
    let mut name = owner.first_name.clone();
    name.append(" ");
    name.append(owner.last_name.as_str());
    name
}

/// Builds the line that the audit log gets when a package is handed out.
pub fn collect_audit(owner: &ResidentData, package: &PackageData) -> (text: String)
    ensures
        text@ == collect_audit_text(owner@, package@),
{
    let mut text = String::from_str("Package collected: ");
    text.append(owner.first_name.as_str());
    text.append(" ");
    text.append(owner.last_name.as_str());
    text.append(" (Apt ");
    text.append(owner.apt.as_str());
    text.append(") picked up package #");
    text.append(package.package_number.as_str());
    text
}

/// Hands out one package to the owner of a verified card, at the time
/// `now`.
///
/// `owner` is the resident whom the card's hash belongs to, `package` the
/// package asked for; either is `None` where the store holds no such record.
pub fn collect_package_at(owner: Option<&ResidentData>, package: Option<&PackageData>, now: &str) -> (result:
    Result<Collected, ErrorKind>)
    ensures
        outcome_of(result) == collected(
            owner_of(owner),
            parcel_of(package),
            now@,
        ),
{
    match (owner, package) {
        (Some(owner), Some(package)) => {
            if owner.apt == package.apt {
                Ok(
                    Collected {
                        package: package.with_status("collected"),
                        collected_by: owner.id,
                        collection_time: now.to_owned(),
                        audit: collect_audit(owner, package),
                        resident_name: full_name(owner),
                    },
                )
            } else {
                Err(ErrorKind::LocationMismatch)
            }
        },
        _ => Err(ErrorKind::NotFound),
    }
}

/// Hands out a batch of packages to the owner of a verified card, at the
/// time `now`.
///
/// Every package is judged by itself, as [`collect_package_at`] does. The
/// report holds the outcome for each package, the number of packages handed
/// out, and the numbers of those that were not.
pub fn collect_selected_at(owner: Option<&ResidentData>, requests: &Vec<Requested>, now: &str) -> (report:
    CollectReport)
    ensures
        outcomes_of(report.outcomes@) == batch_outcomes(
            owner_of(owner),
            requests_of(requests@),
            now@,
        ),
        report.collected == successes(outcomes_of(report.outcomes@)),
        report.collected + report.failed@.len() == requests@.len(),
        report.failed@ == refused_ids(
            owner_of(owner),
            requests_of(requests@),
            now@,
        ),
        report@ == batch_report(owner_of(owner), requests_of(requests@), now@),
{
    let ghost who = owner_of(owner);
    let ghost asked = requests_of(requests@);
    let mut outcomes: Vec<Result<Collected, ErrorKind>> = Vec::new();
    let mut collected_count: usize = 0;
    let mut failed: Vec<u32> = Vec::new();
    let mut at: usize = 0;
    while at < requests.len()
        invariant
            at <= requests@.len(),
            asked == requests_of(requests@),
            who == owner_of(owner),
            outcomes@.len() == at,
            outcomes_of(outcomes@) == batch_outcomes(who, asked.take(at as int), now@),
            collected_count == successes(outcomes_of(outcomes@)),
            collected_count + failed@.len() == at,
            failed@ == refused_ids(who, asked.take(at as int), now@),
        decreases requests@.len() - at,
    {
        let request = &requests[at];
        let outcome = collect_package_at(owner, request.package.as_ref(), now);
        let ghost before = outcomes_of(outcomes@);
        let ghost judged = outcome_of(outcome);
        assert(asked[at as int] == request@);
        assert(judged == collected(who, asked[at as int].package, now@));
        match &outcome {
            Ok(_) => {
                collected_count = collected_count + 1;
            },
            Err(_) => {
                failed.push(request.id);
            },
        }
        outcomes.push(outcome);
        proof {
            let sofar = asked.take(at + 1);
            assert(sofar.drop_last() == asked.take(at as int));
            assert(sofar.last() == asked[at as int]);
            assert(outcomes_of(outcomes@) == before.push(judged));
            assert(outcomes_of(outcomes@).drop_last() == before);
            assert(outcomes_of(outcomes@) == batch_outcomes(who, sofar, now@));
        }
        at = at + 1;
    }
    assert(asked.take(at as int) == asked);
    CollectReport { outcomes, collected: collected_count, failed }
}

/// Hands out one package to the owner of a verified card, now.
///
/// The outcome is that of [`collect_package_at`] at the time that the clock
/// shows; a package that is handed out carries that time.
pub fn collect_package(owner: Option<&ResidentData>, package: Option<&PackageData>) -> (result:
    Result<Collected, ErrorKind>)
    ensures
        exists|now: Seq<char>|
            outcome_of(result) == #[trigger] collected(
                owner_of(owner),
                parcel_of(package),
                now,
            ),
{
    let now = local_time("%Y-%m-%d %H:%M:%S");
    collect_package_at(owner, package, now.as_str())
}

/// Hands out a batch of packages to the owner of a verified card, now.
///
/// The report is that of [`collect_selected_at`] at the time that the clock
/// shows when the batch begins; every package that is handed out carries
/// that time.
pub fn collect_selected(owner: Option<&ResidentData>, requests: &Vec<Requested>) -> (report:
    CollectReport)
    ensures
        exists|now: Seq<char>|
            report@ == #[trigger] batch_report(owner_of(owner), requests_of(requests@), now),
        report.collected == successes(outcomes_of(report.outcomes@)),
        report.collected + report.failed@.len() == requests@.len(),
{
    let now = local_time("%Y-%m-%d %H:%M:%S");
    collect_selected_at(owner, requests, now.as_str())
}

} // verus!
