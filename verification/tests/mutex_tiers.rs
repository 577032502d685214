use tiered_sync::mutex::compat::MutexKind;
use tiered_sync::mutex::critical_section_mutex;
use tiered_sync::mutex::LockOutcome;
use tiered_sync::mutex::Mutex;
use tiered_sync::mutex::ReentrantMutex;
use tiered_sync::mutex::StaticMutex;
use tiered_sync::mutex::Wait;

const TIERS: [MutexKind; 3] = [MutexKind::SrwLock, MutexKind::CriticalSection, MutexKind::Legacy];

const DEGRADED: [MutexKind; 2] = [MutexKind::CriticalSection, MutexKind::Legacy];

#[test]
fn lock_then_unlock_is_granted_on_every_tier() {
    for kind in TIERS {
        let mut mutex = Mutex::new();
        mutex.init(kind);
        assert_eq!(mutex.lock(kind, 1), LockOutcome::Acquired);
        mutex.unlock(kind, 1);
        assert_eq!(mutex.lock(kind, 1), LockOutcome::Acquired);
        mutex.unlock(kind, 1);
    }
}

#[test]
fn lock_without_init_resolves_the_backend_lazily() {
    for kind in DEGRADED {
        let mut mutex = Mutex::new();
        assert_eq!(mutex.lock(kind, 4), LockOutcome::Acquired);
        mutex.unlock(kind, 4);
        assert!(mutex.destroy(kind));
    }
}

#[test]
fn second_lock_by_the_holder_is_a_violation_on_degraded_tiers() {
    for kind in DEGRADED {
        let mut mutex = Mutex::new();
        assert_eq!(mutex.lock(kind, 7), LockOutcome::Acquired);
        assert_eq!(mutex.lock(kind, 7), LockOutcome::Recursive);
        assert_eq!(mutex.lock(kind, 7), LockOutcome::Recursive);
        mutex.unlock(kind, 7);
        assert_eq!(mutex.lock(kind, 7), LockOutcome::Acquired);
    }
}

#[test]
fn second_lock_by_the_holder_waits_forever_on_the_best_tier() {
    let mut mutex = Mutex::new();
    assert_eq!(mutex.lock(MutexKind::SrwLock, 7), LockOutcome::Acquired);
    assert_eq!(mutex.lock(MutexKind::SrwLock, 7), LockOutcome::Blocked);
    mutex.unlock(MutexKind::SrwLock, 7);
    assert_eq!(mutex.lock(MutexKind::SrwLock, 7), LockOutcome::Acquired);
}

#[test]
fn violation_leaves_the_first_hold_in_place() {
    for kind in DEGRADED {
        let mut mutex = Mutex::new();
        assert_eq!(mutex.lock(kind, 1), LockOutcome::Acquired);
        assert_eq!(mutex.lock(kind, 1), LockOutcome::Recursive);
        assert_eq!(mutex.lock(kind, 2), LockOutcome::Blocked);
        assert!(!mutex.try_lock(kind, 2));
        mutex.unlock(kind, 1);
        assert!(mutex.try_lock(kind, 2));
    }
}

#[test]
fn try_lock_fails_while_another_thread_holds() {
    for kind in TIERS {
        let mut mutex = Mutex::new();
        assert_eq!(mutex.lock(kind, 1), LockOutcome::Acquired);
        assert!(!mutex.try_lock(kind, 2));
        assert!(!mutex.try_lock(kind, 3));
        assert_eq!(mutex.lock(kind, 3), LockOutcome::Blocked);
        mutex.unlock(kind, 1);
        assert!(mutex.try_lock(kind, 3));
        assert!(!mutex.try_lock(kind, 2));
        mutex.unlock(kind, 3);
    }
}

#[test]
fn try_lock_by_the_holder_fails_and_leaks_no_entry() {
    for kind in TIERS {
        let mut mutex = Mutex::new();
        assert!(mutex.try_lock(kind, 5));
        assert!(!mutex.try_lock(kind, 5));
        assert!(!mutex.try_lock(kind, 5));
        // One unlock undoes the one hold: a leaked entry would keep thread 6 out.
        mutex.unlock(kind, 5);
        assert!(mutex.try_lock(kind, 6));
    }
}

#[test]
fn destroy_of_an_unused_mutex_tears_nothing_down() {
    for kind in TIERS {
        let mut mutex = Mutex::new();
        assert!(!mutex.destroy(kind));
    }
}

#[test]
fn destroy_after_use_tears_the_backend_down_once() {
    for kind in DEGRADED {
        let mut mutex = Mutex::new();
        mutex.init(kind);
        assert!(mutex.destroy(kind));
        assert!(!mutex.destroy(kind));
    }
    let mut mutex = Mutex::new();
    mutex.init(MutexKind::SrwLock);
    assert_eq!(mutex.lock(MutexKind::SrwLock, 1), LockOutcome::Acquired);
    mutex.unlock(MutexKind::SrwLock, 1);
    assert!(!mutex.destroy(MutexKind::SrwLock));
}

#[test]
fn raw_is_the_slim_lock_word() {
    let mut mutex = Mutex::new();
    assert_eq!(mutex.lock(MutexKind::SrwLock, 1), LockOutcome::Acquired);
    let mut word = tiered_sync::mutex::srwlock_mutex::SrwLockMutex::new();
    assert!(word.try_lock());
    // Both words are held exclusively: neither grants a second acquire.
    let _ = mutex.raw(MutexKind::SrwLock);
    assert!(!word.try_lock());
    assert!(!mutex.try_lock(MutexKind::SrwLock, 2));
}

#[test]
fn degraded_path_functions_agree_with_the_methods() {
    for kind in DEGRADED {
        let mut mutex = Mutex::new();
        assert!(!critical_section_mutex::destroy(&mut mutex, kind));
        assert_eq!(critical_section_mutex::lock(&mut mutex, kind, 9), LockOutcome::Acquired);
        assert_eq!(critical_section_mutex::lock(&mut mutex, kind, 9), LockOutcome::Recursive);
        assert_eq!(critical_section_mutex::lock(&mut mutex, kind, 8), LockOutcome::Blocked);
        assert!(!critical_section_mutex::try_lock(&mut mutex, kind, 8));
        assert!(!critical_section_mutex::try_lock(&mut mutex, kind, 9));
        critical_section_mutex::unlock(&mut mutex, kind, 9);
        assert!(critical_section_mutex::try_lock(&mut mutex, kind, 8));
        critical_section_mutex::unlock(&mut mutex, kind, 8);
        assert!(critical_section_mutex::destroy(&mut mutex, kind));
    }
}

#[test]
fn reentrant_mutex_counts_entries() {
    for kind in TIERS {
        let mut mutex = ReentrantMutex::uninitialized();
        mutex.init(kind);
        assert_eq!(mutex.lock(kind, 1), Wait::Granted);
        assert_eq!(mutex.lock(kind, 1), Wait::Granted);
        assert!(mutex.try_lock(kind, 1));
        assert_eq!(mutex.lock(kind, 2), Wait::Blocked);
        assert!(!mutex.try_lock(kind, 2));
        mutex.unlock(kind, 1);
        mutex.unlock(kind, 1);
        // Two of three entries are given back: thread 1 is still inside.
        assert!(!mutex.try_lock(kind, 2));
        mutex.unlock(kind, 1);
        assert!(mutex.try_lock(kind, 2));
        mutex.unlock(kind, 2);
        mutex.destroy(kind);
    }
}

#[test]
fn reentrant_try_lock_never_fails_for_the_owner() {
    for kind in TIERS {
        let mut mutex = ReentrantMutex::uninitialized();
        mutex.init(kind);
        for _ in 0..100 {
            assert!(mutex.try_lock(kind, 3));
        }
        for _ in 0..100 {
            mutex.unlock(kind, 3);
        }
        assert_eq!(mutex.lock(kind, 4), Wait::Granted);
    }
}

#[test]
fn static_mutex_works_from_its_zeroed_state() {
    for kind in TIERS {
        let mut mutex = StaticMutex::new();
        assert_eq!(mutex.lock(kind, 1), LockOutcome::Acquired);
        assert_eq!(mutex.lock(kind, 2), LockOutcome::Blocked);
        mutex.unlock(kind, 1);
        assert_eq!(mutex.lock(kind, 2), LockOutcome::Acquired);
        mutex.unlock(kind, 2);
    }
}

#[test]
fn static_mutex_reports_recursion_on_degraded_tiers() {
    for kind in DEGRADED {
        let mut mutex = StaticMutex::new();
        assert_eq!(mutex.lock(kind, 1), LockOutcome::Acquired);
        assert_eq!(mutex.lock(kind, 1), LockOutcome::Recursive);
        mutex.unlock(kind, 1);
        assert_eq!(mutex.lock(kind, 1), LockOutcome::Acquired);
    }
    let mut mutex = StaticMutex::new();
    assert_eq!(mutex.lock(MutexKind::SrwLock, 1), LockOutcome::Acquired);
    assert_eq!(mutex.lock(MutexKind::SrwLock, 1), LockOutcome::Blocked);
}

#[test]
fn only_the_slim_lock_tier_is_not_degraded() {
    assert!(!MutexKind::SrwLock.is_degraded());
    assert!(MutexKind::CriticalSection.is_degraded());
    assert!(MutexKind::Legacy.is_degraded());
}

#[test]
fn static_mutex_takes_critical_sections_on_both_degraded_tiers() {
    assert_eq!(tiered_sync::mutex::static_kind(MutexKind::SrwLock), MutexKind::SrwLock);
    assert_eq!(
        tiered_sync::mutex::static_kind(MutexKind::CriticalSection),
        MutexKind::CriticalSection
    );
    assert_eq!(tiered_sync::mutex::static_kind(MutexKind::Legacy), MutexKind::CriticalSection);
}

#[test]
fn set_flag_after_entry_is_a_violation() {
    assert_eq!(LockOutcome::after_entry(false), LockOutcome::Acquired);
    assert_eq!(LockOutcome::after_entry(true), LockOutcome::Recursive);
}
