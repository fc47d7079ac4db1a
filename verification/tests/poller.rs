use package_room::lock::{Actor, ReaderLock};
use package_room::poller::{
    granted_audit, Lookup, PollAction, PollEvent, PollPhase, Poller, VerificationOutcome,
    ABSENT_GRACE_MS, PAUSE_INTERVAL_MS, POLL_INTERVAL_MS, UNAVAILABLE_INTERVAL_MS,
};
use package_room::records::CardOwner;

fn owner() -> CardOwner {
    CardOwner {
        resident_id: 7,
        apt: "12B".to_string(),
        first_name: "Ada".to_string(),
        last_name: "Lovelace".to_string(),
    }
}

fn found(stored_hash: &str) -> Lookup {
    Lookup::Found { owner: owner(), stored_hash: stored_hash.to_string() }
}

fn rest() -> PollAction {
    PollAction::Sleep { millis: POLL_INTERVAL_MS }
}

/// Runs one whole cycle in which the card `uid` with `hash` is verified
/// against `record`, and returns what was published.
fn verify_card(poller: &mut Poller, lock: &mut ReaderLock, uid: &str, hash: &str, record: Lookup) -> PollAction {
    assert_eq!(poller.step(lock, PollEvent::Wake), PollAction::ReadUid);
    assert_eq!(poller.step(lock, PollEvent::Uid(Some(uid.to_string()))), PollAction::ReadHash);
    assert_eq!(
        poller.step(lock, PollEvent::Hash(Some(hash.to_string()))),
        PollAction::FindCard { hash: hash.to_string() }
    );
    let published = poller.step(lock, PollEvent::Record(record));
    assert_eq!(poller.step(lock, PollEvent::Shown), rest());
    published
}

#[test]
fn constants_of_the_cycle() {
    assert_eq!(POLL_INTERVAL_MS, 300);
    assert_eq!(PAUSE_INTERVAL_MS, 1000);
    assert_eq!(UNAVAILABLE_INTERVAL_MS, 500);
    assert_eq!(ABSENT_GRACE_MS, 2000);
}

#[test]
fn fresh_poller_has_seen_nothing() {
    let poller = Poller::new();
    assert_eq!(poller.phase(), PollPhase::Idle);
    assert_eq!(poller.last_uid(), None);
}

#[test]
fn known_card_is_granted_and_audited() {
    let mut lock = ReaderLock::new();
    let mut poller = Poller::new();
    let published = verify_card(&mut poller, &mut lock, "04A1B2C3", "abc123", found("abc123"));
    assert_eq!(
        published,
        PollAction::Publish {
            outcome: VerificationOutcome::Granted(owner()),
            delay_millis: 0,
            audit: Some("Access granted: Ada Lovelace (Apt: 12B)".to_string()),
        }
    );
    assert_eq!(poller.last_uid(), Some("04A1B2C3".to_string()));
    assert_eq!(lock.holder(), None);
}

#[test]
fn audit_line_for_a_grant() {
    assert_eq!(granted_audit(&owner()), "Access granted: Ada Lovelace (Apt: 12B)");
}

#[test]
fn card_without_a_record_is_unknown() {
    let mut lock = ReaderLock::new();
    let mut poller = Poller::new();
    let published = verify_card(&mut poller, &mut lock, "04A1B2C3", "abc123", Lookup::Missing);
    assert_eq!(
        published,
        PollAction::Publish { outcome: VerificationOutcome::Unknown, delay_millis: 0, audit: None }
    );
    assert_eq!(poller.last_uid(), Some("04A1B2C3".to_string()));
}

#[test]
fn record_with_another_hash_is_unknown() {
    let mut lock = ReaderLock::new();
    let mut poller = Poller::new();
    let published = verify_card(&mut poller, &mut lock, "04A1B2C3", "abc123", found("abc124"));
    assert_eq!(
        published,
        PollAction::Publish { outcome: VerificationOutcome::Unknown, delay_millis: 0, audit: None }
    );
}

#[test]
fn busy_store_publishes_nothing_but_remembers_the_card() {
    let mut lock = ReaderLock::new();
    let mut poller = Poller::new();
    let published = {
        assert_eq!(poller.step(&mut lock, PollEvent::Wake), PollAction::ReadUid);
        assert_eq!(poller.step(&mut lock, PollEvent::Uid(Some("AA".to_string()))), PollAction::ReadHash);
        poller.step(&mut lock, PollEvent::Hash(Some("h".to_string())));
        poller.step(&mut lock, PollEvent::Record(Lookup::Busy))
    };
    assert_eq!(published, rest());
    assert_eq!(poller.phase(), PollPhase::Idle);
    assert_eq!(poller.last_uid(), Some("AA".to_string()));
}

#[test]
fn same_card_is_not_verified_twice() {
    let mut lock = ReaderLock::new();
    let mut poller = Poller::new();
    verify_card(&mut poller, &mut lock, "04A1B2C3", "abc123", found("abc123"));
    for _ in 0..50 {
        assert_eq!(poller.step(&mut lock, PollEvent::Wake), PollAction::ReadUid);
        assert_eq!(lock.holder(), Some(Actor::Poller));
        assert_eq!(poller.step(&mut lock, PollEvent::Uid(Some("04A1B2C3".to_string()))), rest());
        assert_eq!(lock.holder(), None);
        assert_eq!(poller.phase(), PollPhase::Idle);
    }
    assert_eq!(poller.last_uid(), Some("04A1B2C3".to_string()));
}

#[test]
fn removed_card_is_reported_absent_after_the_grace_delay() {
    let mut lock = ReaderLock::new();
    let mut poller = Poller::new();
    verify_card(&mut poller, &mut lock, "04A1B2C3", "abc123", found("abc123"));
    assert_eq!(poller.step(&mut lock, PollEvent::Wake), PollAction::ReadUid);
    assert_eq!(
        poller.step(&mut lock, PollEvent::Uid(None)),
        PollAction::Publish {
            outcome: VerificationOutcome::Absent,
            delay_millis: 2000,
            audit: None,
        }
    );
    assert_eq!(lock.holder(), None);
    assert_eq!(poller.last_uid(), None);
    assert_eq!(poller.step(&mut lock, PollEvent::Shown), rest());
    // Nothing more is reported while the reader stays empty.
    assert_eq!(poller.step(&mut lock, PollEvent::Wake), PollAction::ReadUid);
    assert_eq!(poller.step(&mut lock, PollEvent::Uid(None)), rest());
}

#[test]
fn card_is_verified_again_after_it_was_absent() {
    let mut lock = ReaderLock::new();
    let mut poller = Poller::new();
    verify_card(&mut poller, &mut lock, "04A1B2C3", "abc123", found("abc123"));
    poller.step(&mut lock, PollEvent::Wake);
    poller.step(&mut lock, PollEvent::Uid(None));
    poller.step(&mut lock, PollEvent::Shown);
    let again = verify_card(&mut poller, &mut lock, "04A1B2C3", "abc123", found("abc123"));
    assert!(matches!(
        again,
        PollAction::Publish { outcome: VerificationOutcome::Granted(_), .. }
    ));
}

#[test]
fn another_card_is_verified_without_an_absence() {
    let mut lock = ReaderLock::new();
    let mut poller = Poller::new();
    verify_card(&mut poller, &mut lock, "04A1B2C3", "abc123", found("abc123"));
    let other = verify_card(&mut poller, &mut lock, "04FFFFFF", "def456", Lookup::Missing);
    assert!(matches!(
        other,
        PollAction::Publish { outcome: VerificationOutcome::Unknown, .. }
    ));
    assert_eq!(poller.last_uid(), Some("04FFFFFF".to_string()));
}

#[test]
fn paused_poller_waits_and_forgets_the_card() {
    let mut lock = ReaderLock::new();
    let mut poller = Poller::new();
    verify_card(&mut poller, &mut lock, "04A1B2C3", "abc123", found("abc123"));
    lock.pause();
    for _ in 0..3 {
        assert_eq!(
            poller.step(&mut lock, PollEvent::Wake),
            PollAction::Sleep { millis: 1000 }
        );
        assert_eq!(lock.holder(), None);
        assert_eq!(poller.last_uid(), None);
    }
    lock.resume();
    assert_eq!(poller.step(&mut lock, PollEvent::Wake), PollAction::ReadUid);
}

#[test]
fn poller_skips_the_cycle_when_the_reader_is_taken() {
    let mut lock = ReaderLock::new();
    let mut poller = Poller::new();
    assert_eq!(lock.acquire_exclusive(), Ok(()));
    for _ in 0..10 {
        assert_eq!(poller.step(&mut lock, PollEvent::Wake), rest());
        assert_eq!(lock.holder(), Some(Actor::Writer));
        assert_eq!(poller.phase(), PollPhase::Idle);
    }
    lock.release(Actor::Writer);
    assert_eq!(poller.step(&mut lock, PollEvent::Wake), PollAction::ReadUid);
    assert_eq!(lock.holder(), Some(Actor::Poller));
}

#[test]
fn poller_gives_the_reader_back_between_uid_and_hash() {
    let mut lock = ReaderLock::new();
    let mut poller = Poller::new();
    poller.step(&mut lock, PollEvent::Wake);
    assert_eq!(lock.holder(), Some(Actor::Poller));
    assert_eq!(poller.step(&mut lock, PollEvent::Uid(Some("AA".to_string()))), PollAction::ReadHash);
    assert_eq!(poller.phase(), PollPhase::ReadingHash);
    assert_eq!(lock.holder(), Some(Actor::Poller));
    poller.step(&mut lock, PollEvent::Hash(Some("h".to_string())));
    assert_eq!(poller.phase(), PollPhase::LookingUp);
    assert_eq!(lock.holder(), None);
}

#[test]
fn unreadable_hash_publishes_nothing() {
    let mut lock = ReaderLock::new();
    let mut poller = Poller::new();
    poller.step(&mut lock, PollEvent::Wake);
    poller.step(&mut lock, PollEvent::Uid(Some("AA".to_string())));
    assert_eq!(poller.step(&mut lock, PollEvent::Hash(None)), rest());
    assert_eq!(poller.last_uid(), Some("AA".to_string()));
    assert_eq!(lock.holder(), None);
}

#[test]
fn blank_card_is_shown_as_unknown() {
    let mut lock = ReaderLock::new();
    let mut poller = Poller::new();
    poller.step(&mut lock, PollEvent::Wake);
    poller.step(&mut lock, PollEvent::Uid(Some("AA".to_string())));
    assert_eq!(
        poller.step(&mut lock, PollEvent::Hash(Some(String::new()))),
        PollAction::FindCard { hash: String::new() }
    );
    assert_eq!(lock.holder(), None);
    assert_eq!(
        poller.step(&mut lock, PollEvent::Record(Lookup::Missing)),
        PollAction::Publish { outcome: VerificationOutcome::Unknown, delay_millis: 0, audit: None }
    );
    assert_eq!(poller.last_uid(), Some("AA".to_string()));
    assert_eq!(poller.step(&mut lock, PollEvent::Shown), rest());
}

#[test]
fn unavailable_reader_is_tried_again_later() {
    let mut lock = ReaderLock::new();
    let mut poller = Poller::new();
    poller.step(&mut lock, PollEvent::Wake);
    assert_eq!(
        poller.step(&mut lock, PollEvent::Unavailable),
        PollAction::Sleep { millis: 500 }
    );
    assert_eq!(lock.holder(), None);
    assert_eq!(poller.phase(), PollPhase::Idle);
}

#[test]
fn event_out_of_turn_ends_the_cycle() {
    let mut lock = ReaderLock::new();
    let mut poller = Poller::new();
    poller.step(&mut lock, PollEvent::Wake);
    assert_eq!(poller.step(&mut lock, PollEvent::Shown), rest());
    assert_eq!(poller.phase(), PollPhase::Idle);
    assert_eq!(lock.holder(), None);
    assert_eq!(poller.step(&mut lock, PollEvent::Uid(Some("AA".to_string()))), rest());
    assert_eq!(poller.last_uid(), None);
}

#[test]
fn event_out_of_turn_leaves_a_writer_alone() {
    let mut lock = ReaderLock::new();
    let mut poller = Poller::new();
    assert_eq!(lock.acquire_exclusive(), Ok(()));
    assert_eq!(poller.step(&mut lock, PollEvent::Hash(None)), rest());
    assert_eq!(lock.holder(), Some(Actor::Writer));
}
