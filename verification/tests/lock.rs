use package_room::errors::ErrorKind;
use package_room::lock::{Actor, ReaderLock};

#[test]
fn new_lock_is_free_and_unpaused() {
    let lock = ReaderLock::new();
    assert_eq!(lock.holder(), None);
    assert!(!lock.is_paused());
}

#[test]
fn writer_gets_a_free_reader_at_once() {
    let mut lock = ReaderLock::new();
    assert_eq!(lock.acquire_exclusive(), Ok(()));
    assert_eq!(lock.holder(), Some(Actor::Writer));
    assert!(lock.is_held_by(Actor::Writer));
    assert!(!lock.is_held_by(Actor::Poller));
}

#[test]
fn poller_is_refused_while_the_writer_holds_the_reader() {
    let mut lock = ReaderLock::new();
    assert_eq!(lock.acquire_exclusive(), Ok(()));
    for _ in 0..1000 {
        assert_eq!(lock.try_acquire(Actor::Poller), Err(ErrorKind::Busy));
        assert_eq!(lock.holder(), Some(Actor::Writer));
    }
    assert!(lock.release(Actor::Writer));
    assert_eq!(lock.try_acquire(Actor::Poller), Ok(()));
    assert_eq!(lock.holder(), Some(Actor::Poller));
}

#[test]
fn writer_is_refused_while_the_poller_holds_the_reader() {
    let mut lock = ReaderLock::new();
    assert_eq!(lock.try_acquire(Actor::Poller), Ok(()));
    assert_eq!(lock.acquire_exclusive(), Err(ErrorKind::Busy));
    assert_eq!(lock.holder(), Some(Actor::Poller));
    assert!(lock.release(Actor::Poller));
    assert_eq!(lock.acquire_exclusive(), Ok(()));
}

#[test]
fn only_the_owner_can_release() {
    let mut lock = ReaderLock::new();
    assert!(!lock.release(Actor::Writer));
    assert_eq!(lock.acquire_exclusive(), Ok(()));
    assert!(!lock.release(Actor::Poller));
    assert_eq!(lock.holder(), Some(Actor::Writer));
    assert!(lock.release(Actor::Writer));
    assert_eq!(lock.holder(), None);
    assert!(!lock.release(Actor::Writer));
}

#[test]
fn nobody_gets_the_reader_twice() {
    let mut lock = ReaderLock::new();
    assert_eq!(lock.try_acquire(Actor::Poller), Ok(()));
    assert_eq!(lock.try_acquire(Actor::Poller), Err(ErrorKind::Busy));
    lock.release(Actor::Poller);
    assert_eq!(lock.acquire_exclusive(), Ok(()));
    assert_eq!(lock.acquire_exclusive(), Err(ErrorKind::Busy));
}

#[test]
fn pause_flag_does_not_touch_the_lock() {
    let mut lock = ReaderLock::new();
    lock.pause();
    assert!(lock.is_paused());
    assert_eq!(lock.holder(), None);
    assert_eq!(lock.try_acquire(Actor::Poller), Ok(()));
    lock.resume();
    assert!(!lock.is_paused());
    assert_eq!(lock.holder(), Some(Actor::Poller));
    lock.pause();
    lock.pause();
    lock.resume();
    assert!(!lock.is_paused());
}
