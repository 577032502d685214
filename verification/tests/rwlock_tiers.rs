use tiered_sync::mutex::compat::MutexKind;
use tiered_sync::mutex::LockOutcome;
use tiered_sync::rwlock::RWLock;

const TIERS: [MutexKind; 3] = [MutexKind::SrwLock, MutexKind::CriticalSection, MutexKind::Legacy];

const DEGRADED: [MutexKind; 2] = [MutexKind::CriticalSection, MutexKind::Legacy];

#[test]
fn many_readers_share_the_best_tier() {
    let kind = MutexKind::SrwLock;
    let mut lock = RWLock::new();
    for reader in 0..16 {
        assert_eq!(lock.read(kind, reader), LockOutcome::Acquired);
    }
    assert!(lock.try_read(kind, 16));
    assert_eq!(lock.write(kind, 99), LockOutcome::Blocked);
    assert!(!lock.try_write(kind, 99));
    for reader in 0..16 {
        lock.read_unlock(kind, reader);
        assert_eq!(lock.write(kind, 99), LockOutcome::Blocked);
    }
    lock.read_unlock(kind, 16);
    assert_eq!(lock.write(kind, 99), LockOutcome::Acquired);
}

#[test]
fn writer_keeps_readers_and_writers_out_on_the_best_tier() {
    let kind = MutexKind::SrwLock;
    let mut lock = RWLock::new();
    assert!(lock.try_write(kind, 1));
    assert_eq!(lock.read(kind, 2), LockOutcome::Blocked);
    assert!(!lock.try_read(kind, 2));
    assert_eq!(lock.write(kind, 2), LockOutcome::Blocked);
    assert!(!lock.try_write(kind, 2));
    lock.write_unlock(kind, 1);
    assert_eq!(lock.read(kind, 2), LockOutcome::Acquired);
}

#[test]
fn readers_exclude_each_other_on_degraded_tiers() {
    for kind in DEGRADED {
        let mut lock = RWLock::new();
        assert_eq!(lock.read(kind, 1), LockOutcome::Acquired);
        assert_eq!(lock.read(kind, 2), LockOutcome::Blocked);
        assert!(!lock.try_read(kind, 2));
        assert_eq!(lock.write(kind, 2), LockOutcome::Blocked);
        assert!(!lock.try_write(kind, 2));
        lock.read_unlock(kind, 1);
        assert!(lock.try_read(kind, 2));
        assert!(!lock.try_read(kind, 1));
        lock.read_unlock(kind, 2);
    }
}

#[test]
fn second_read_by_the_reader_is_a_violation_on_degraded_tiers() {
    for kind in DEGRADED {
        let mut lock = RWLock::new();
        assert_eq!(lock.read(kind, 1), LockOutcome::Acquired);
        assert_eq!(lock.read(kind, 1), LockOutcome::Recursive);
        assert_eq!(lock.write(kind, 1), LockOutcome::Recursive);
        assert!(!lock.try_read(kind, 1));
        lock.read_unlock(kind, 1);
        assert_eq!(lock.write(kind, 1), LockOutcome::Acquired);
        lock.write_unlock(kind, 1);
    }
}

#[test]
fn write_then_unlock_is_granted_on_every_tier() {
    for kind in TIERS {
        let mut lock = RWLock::new();
        assert_eq!(lock.write(kind, 1), LockOutcome::Acquired);
        lock.write_unlock(kind, 1);
        assert_eq!(lock.read(kind, 1), LockOutcome::Acquired);
        lock.read_unlock(kind, 1);
        assert!(lock.try_write(kind, 2));
        lock.write_unlock(kind, 2);
    }
}

#[test]
fn destroy_of_an_unused_rwlock_tears_nothing_down() {
    for kind in TIERS {
        let mut lock = RWLock::new();
        assert!(!lock.destroy(kind));
    }
}

#[test]
fn destroy_reaches_the_fallback_mutex_once_it_exists() {
    for kind in DEGRADED {
        let mut lock = RWLock::new();
        assert_eq!(lock.read(kind, 1), LockOutcome::Acquired);
        lock.read_unlock(kind, 1);
        assert!(lock.destroy(kind));
        assert!(!lock.destroy(kind));
    }
    let kind = MutexKind::SrwLock;
    let mut lock = RWLock::new();
    assert_eq!(lock.read(kind, 1), LockOutcome::Acquired);
    lock.read_unlock(kind, 1);
    assert!(!lock.destroy(kind));
}
