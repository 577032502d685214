use tiered_sync::mutex::compat::MutexKind;
use tiered_sync::mutex::LockOutcome;
use tiered_sync::mutex::Mutex;
use tiered_sync::mutex::StaticMutex;
use tiered_sync::rwlock::RWLock;

const TIERS: [MutexKind; 3] = [MutexKind::SrwLock, MutexKind::CriticalSection, MutexKind::Legacy];

/// A fixed walk through the numbers below `bound`.
struct Walk(u64);

impl Walk {
    fn next(&mut self, bound: u64) -> u64 {
        self.0 = self.0.wrapping_mul(6364136223846793005).wrapping_add(1442695040888963407);
        (self.0 >> 33) % bound
    }
}

#[derive(Clone, Copy, PartialEq, Debug)]
enum Place {
    Outside,
    Reading,
    Writing,
}

#[test]
fn no_two_threads_are_inside_a_mutex() {
    for kind in TIERS {
        let mut mutex = Mutex::new();
        let mut inside = [false; 5];
        let mut walk = Walk(7);
        let mut entries = 0;
        for _ in 0..20_000 {
            let thread = walk.next(5) as usize;
            if inside[thread] {
                mutex.unlock(kind, thread as u64);
                inside[thread] = false;
            } else {
                let nobody = inside.iter().all(|&is_inside| !is_inside);
                let got_in = if walk.next(2) == 0 {
                    mutex.try_lock(kind, thread as u64)
                } else {
                    match mutex.lock(kind, thread as u64) {
                        LockOutcome::Acquired => true,
                        LockOutcome::Blocked => false,
                        LockOutcome::Recursive => panic!("thread {} is outside", thread),
                    }
                };
                assert_eq!(got_in, nobody);
                inside[thread] = got_in;
                entries += got_in as u32;
            }
            assert!(inside.iter().filter(|&&is_inside| is_inside).count() <= 1);
        }
        assert!(entries > 1000);
    }
}

#[test]
fn no_two_threads_are_inside_a_static_mutex() {
    for kind in TIERS {
        let mut mutex = StaticMutex::new();
        let mut inside = [false; 3];
        let mut walk = Walk(11);
        for _ in 0..5_000 {
            let thread = walk.next(3) as usize;
            if inside[thread] {
                mutex.unlock(kind, thread as u64);
                inside[thread] = false;
            } else {
                let nobody = inside.iter().all(|&is_inside| !is_inside);
                let outcome = mutex.lock(kind, thread as u64);
                assert_eq!(outcome == LockOutcome::Acquired, nobody);
                assert_ne!(outcome, LockOutcome::Recursive);
                inside[thread] = outcome == LockOutcome::Acquired;
            }
        }
    }
}

#[test]
fn writers_are_alone_and_readers_share_as_the_tier_allows() {
    for kind in TIERS {
        let mut lock = RWLock::new();
        let mut places = [Place::Outside; 6];
        let mut walk = Walk(13);
        let mut most_readers = 0;
        for _ in 0..30_000 {
            let thread = walk.next(6) as usize;
            let readers = places.iter().filter(|&&place| place == Place::Reading).count();
            let writers = places.iter().filter(|&&place| place == Place::Writing).count();
            match places[thread] {
                Place::Reading => {
                    lock.read_unlock(kind, thread as u64);
                    places[thread] = Place::Outside;
                }
                Place::Writing => {
                    lock.write_unlock(kind, thread as u64);
                    places[thread] = Place::Outside;
                }
                Place::Outside => {
                    let write = walk.next(4) == 0;
                    let patient = walk.next(2) == 0;
                    let got_in = match (write, patient) {
                        (true, true) => lock.write(kind, thread as u64) == LockOutcome::Acquired,
                        (true, false) => lock.try_write(kind, thread as u64),
                        (false, true) => lock.read(kind, thread as u64) == LockOutcome::Acquired,
                        (false, false) => lock.try_read(kind, thread as u64),
                    };
                    let expected = if write || kind != MutexKind::SrwLock {
                        readers + writers == 0
                    } else {
                        writers == 0
                    };
                    assert_eq!(got_in, expected);
                    if got_in {
                        places[thread] = if write { Place::Writing } else { Place::Reading };
                    }
                }
            }
            let readers = places.iter().filter(|&&place| place == Place::Reading).count();
            let writers = places.iter().filter(|&&place| place == Place::Writing).count();
            assert!(writers <= 1);
            assert!(writers == 0 || readers == 0);
            if kind != MutexKind::SrwLock {
                assert!(readers + writers <= 1);
            }
            most_readers = most_readers.max(readers);
        }
        if kind == MutexKind::SrwLock {
            assert!(most_readers >= 3);
        } else {
            assert_eq!(most_readers, 1);
        }
    }
}
