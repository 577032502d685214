use std::cell::Cell;
use std::sync::atomic::AtomicUsize;
use std::sync::atomic::Ordering;
use tiered_sync::mutex::compat::after_exchange;
use tiered_sync::mutex::compat::after_load;
use tiered_sync::mutex::compat::atomic_init;
use tiered_sync::mutex::compat::cached_kind;
use tiered_sync::mutex::compat::detect;
use tiered_sync::mutex::compat::detect_from;
use tiered_sync::mutex::compat::encode_kind;
use tiered_sync::mutex::compat::probe;
use tiered_sync::mutex::compat::MutexKind;
use tiered_sync::mutex::compat::Publication;

#[test]
fn probes_select_the_first_tier_that_exists() {
    assert_eq!(probe(|| true, || true), MutexKind::SrwLock);
    assert_eq!(probe(|| true, || false), MutexKind::SrwLock);
    assert_eq!(probe(|| false, || true), MutexKind::CriticalSection);
    assert_eq!(probe(|| false, || false), MutexKind::Legacy);
}

#[test]
fn second_probe_runs_only_when_the_first_fails() {
    let second = Cell::new(0);
    let count = || {
        second.set(second.get() + 1);
        true
    };
    assert_eq!(probe(|| true, count), MutexKind::SrwLock);
    assert_eq!(second.get(), 0);
    let count = || {
        second.set(second.get() + 1);
        true
    };
    assert_eq!(probe(|| false, count), MutexKind::CriticalSection);
    assert_eq!(second.get(), 1);
}

#[test]
fn cache_words_round_trip() {
    assert_eq!(encode_kind(MutexKind::SrwLock), 1);
    assert_eq!(encode_kind(MutexKind::CriticalSection), 2);
    assert_eq!(encode_kind(MutexKind::Legacy), 3);
    assert_eq!(cached_kind(0), None);
    assert_eq!(cached_kind(1), Some(MutexKind::SrwLock));
    assert_eq!(cached_kind(2), Some(MutexKind::CriticalSection));
    assert_eq!(cached_kind(3), Some(MutexKind::Legacy));
    assert_eq!(cached_kind(4), None);
    assert_eq!(cached_kind(usize::MAX), None);
}

#[test]
fn filled_cache_answers_without_probing() {
    let probes = Cell::new(0);
    let found = detect_from(
        2,
        || {
            probes.set(probes.get() + 1);
            true
        },
        || true,
    );
    assert_eq!(found.kind, MutexKind::CriticalSection);
    assert_eq!(found.publish, None);
    assert_eq!(probes.get(), 0);
}

#[test]
fn empty_cache_probes_and_publishes() {
    let found = detect_from(0, || false, || false);
    assert_eq!(found.kind, MutexKind::Legacy);
    assert_eq!(found.publish, Some(3));
    let found = detect_from(0, || true, || false);
    assert_eq!(found.kind, MutexKind::SrwLock);
    assert_eq!(found.publish, Some(1));
}

#[test]
fn detect_probes_once_and_then_loads() {
    let cell = AtomicUsize::new(0);
    let probes = Cell::new(0);
    for _ in 0..5 {
        let kind = detect(
            &cell,
            || {
                probes.set(probes.get() + 1);
                false
            },
            || true,
        );
        assert_eq!(kind, MutexKind::CriticalSection);
    }
    assert_eq!(probes.get(), 1);
    assert_eq!(cell.load(Ordering::SeqCst), 2);
}

#[test]
fn racing_detections_agree() {
    // The second caller runs while the first is between its load and its store.
    let cell = AtomicUsize::new(0);
    let probes = Cell::new(0);
    let outer = detect(
        &cell,
        || {
            probes.set(probes.get() + 1);
            let inner = detect(
                &cell,
                || {
                    probes.set(probes.get() + 1);
                    false
                },
                || false,
            );
            assert_eq!(inner, MutexKind::Legacy);
            false
        },
        || false,
    );
    assert_eq!(outer, MutexKind::Legacy);
    assert_eq!(probes.get(), 2);
    assert_eq!(cell.load(Ordering::SeqCst), 3);
    assert_eq!(detect(&cell, || true, || true), MutexKind::Legacy);
}

#[test]
fn zero_is_the_unresolved_slot() {
    assert_eq!(after_load(0), None);
    assert_eq!(after_load(1), Some(1));
    assert_eq!(after_load(0xdead_beef), Some(0xdead_beef));
}

#[test]
fn winner_keeps_and_loser_discards() {
    assert_eq!(after_exchange(Ok(0), 40), Publication { backend: 40, discard: None });
    assert_eq!(after_exchange(Err(24), 40), Publication { backend: 24, discard: Some(40) });
}

#[test]
fn first_resolve_builds_and_publishes() {
    let slot = AtomicUsize::new(0);
    let built = Cell::new(0);
    let destroyed = Cell::new(0);
    let backend = atomic_init(
        &slot,
        || {
            built.set(built.get() + 1);
            0x1000
        },
        |_| destroyed.set(destroyed.get() + 1),
    );
    assert_eq!(backend, 0x1000);
    assert_eq!(slot.load(Ordering::SeqCst), 0x1000);
    assert_eq!(built.get(), 1);
    assert_eq!(destroyed.get(), 0);
}

#[test]
fn later_resolves_build_nothing() {
    let slot = AtomicUsize::new(0);
    let built = Cell::new(0);
    for round in 0..4 {
        let backend = atomic_init(
            &slot,
            || {
                built.set(built.get() + 1);
                0x2000 + round
            },
            |_| panic!("nothing was built in vain"),
        );
        assert_eq!(backend, 0x2000);
    }
    assert_eq!(built.get(), 1);
}

#[test]
fn loser_of_the_exchange_destroys_its_own_backend() {
    // Another thread publishes 0x77 while this one is building 0x55.
    let slot = AtomicUsize::new(0);
    let destroyed = Cell::new(0);
    let backend = atomic_init(
        &slot,
        || {
            slot.store(0x77, Ordering::SeqCst);
            0x55
        },
        |loser| destroyed.set(loser),
    );
    assert_eq!(backend, 0x77);
    assert_eq!(destroyed.get(), 0x55);
    assert_eq!(slot.load(Ordering::SeqCst), 0x77);
}

#[test]
fn racing_resolves_leave_one_backend() {
    // Three callers, each entered while the one before was building.
    let slot = AtomicUsize::new(0);
    let built = Cell::new(0);
    let destroyed = Cell::new(0);
    let results = Cell::new([0usize; 3]);
    let build = |handle: usize| {
        built.set(built.get() + 1);
        handle
    };
    let discard = |_: usize| destroyed.set(destroyed.get() + 1);
    let first = atomic_init(
        &slot,
        || {
            let second = atomic_init(
                &slot,
                || {
                    let third = atomic_init(&slot, || build(0x30), discard);
                    let mut seen = results.get();
                    seen[2] = third;
                    results.set(seen);
                    build(0x20)
                },
                discard,
            );
            let mut seen = results.get();
            seen[1] = second;
            results.set(seen);
            build(0x10)
        },
        discard,
    );
    let mut seen = results.get();
    seen[0] = first;
    assert_eq!(seen, [0x30, 0x30, 0x30]);
    assert_eq!(slot.load(Ordering::SeqCst), 0x30);
    assert_eq!(built.get(), 3);
    assert_eq!(destroyed.get(), 2);
}
