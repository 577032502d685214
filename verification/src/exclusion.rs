//! Mutual exclusion under every schedule.
//!
//! Threads share one lock. Each is outside or inside; a thread outside asks
//! for the lock, a thread inside gives it back. A schedule names the thread
//! that moves next. Whatever the schedule and whatever the tier, the lock and
//! the threads agree on who is inside, and the threads inside are those that
//! the lock admits together: one for a mutex; one writer or any number of
//! readers for a read/write lock on the best tier; one in all for a
//! read/write lock on a degraded tier.

use crate::mutex::compat::MutexKind;
use crate::mutex::LockOutcome;
use crate::mutex::MutexState;
use crate::mutex::ThreadId;
use crate::rwlock::RwState;
use vstd::prelude::*;

verus! {

/// The name of the thread at place `i` of a crowd.
pub open spec fn thread_at(i: int) -> ThreadId {
    i as ThreadId
}

/// Where a thread stands to a mutex.
pub enum Place {
    Outside,
    Inside,
}

/// A mutex and the threads that use it.
pub struct Crowd {
    pub mutex: MutexState,
    pub places: Seq<Place>,
}

impl Crowd {
    /// A fresh mutex with `threads` threads outside.
    pub open spec fn start(threads: nat) -> Crowd {
        Crowd { mutex: MutexState::fresh(), places: Seq::new(threads, |i: int| Place::Outside) }
    }

    /// One move of thread `i`. Outside, it asks for the mutex, by `lock` or
    /// by `try_lock`, and is inside if it gets it. Inside, it unlocks.
    pub open spec fn step(self, kind: MutexKind, i: int) -> Crowd {
        if 0 <= i < self.places.len() {
            match self.places[i] {
                Place::Outside => Crowd {
                    mutex: self.mutex.lock(kind, thread_at(i)),
                    places: if self.mutex.lock_outcome(kind, thread_at(i)) is Acquired {
                        self.places.update(i, Place::Inside)
                    } else {
                        self.places
                    },
                },
                Place::Inside => Crowd {
                    mutex: self.mutex.released(kind),
                    places: self.places.update(i, Place::Outside),
                },
            }
        } else {
            self
        }
    }

    /// The crowd after the threads have moved as `schedule` says.
    pub open spec fn run(self, kind: MutexKind, schedule: Seq<int>) -> Crowd
        decreases schedule.len(),
    {
        if schedule.len() == 0 {
            self
        } else {
            self.run(kind, schedule.drop_last()).step(kind, schedule.last())
        }
    }

    /// The mutex is valid; it is held exactly while a thread is inside; a
    /// degraded tier has that thread on record; and no two threads are inside.
    pub open spec fn inv(self, kind: MutexKind) -> bool {
        &&& self.mutex.wf(kind)
        &&& self.places.len() <= u64::MAX
        &&& forall|i: int|
            0 <= i < self.places.len() && (#[trigger] self.places[i]) is Inside
                ==> self.mutex.is_locked(kind) && (kind.is_degraded() ==> self.mutex.holder(kind)
                == Some(thread_at(i)))
        &&& forall|i: int, j: int|
            0 <= i < self.places.len() && 0 <= j < self.places.len() && i != j && (
            #[trigger] self.places[i]) is Inside ==> (#[trigger] self.places[j]) is Outside
        &&& self.mutex.is_locked(kind) ==> exists|i: int|
            0 <= i < self.places.len() && (#[trigger] self.places[i]) is Inside
    }
}

/// A move keeps the agreement of mutex and threads. The thread that moves
/// is entitled to its move: inside, it holds the mutex that it unlocks.
/// Outside, it is let in exactly when nobody is inside, and it never meets a
/// recursion violation, since it does not hold the mutex.
pub proof fn lemma_crowd_step(c: Crowd, kind: MutexKind, i: int)
    requires
        c.inv(kind),
        0 <= i < c.places.len(),
    ensures
        c.step(kind, i).inv(kind),
        c.step(kind, i).places.len() == c.places.len(),
        c.places[i] is Inside ==> c.mutex.is_locked(kind) && (kind.is_degraded()
            ==> c.mutex.holder(kind) == Some(thread_at(i))),
        c.places[i] is Outside ==> c.mutex.lock_outcome(kind, thread_at(i))
            != LockOutcome::Recursive,
        c.places[i] is Outside ==> (c.step(kind, i).places[i] is Inside <==> forall|j: int|
            0 <= j < c.places.len() ==> (#[trigger] c.places[j]) is Outside),
{
}

/// However the threads that share a mutex take turns, on every tier: no two
/// of them are ever inside together, and the mutex is held exactly while one
/// of them is inside.
pub proof fn lemma_mutex_excludes(kind: MutexKind, threads: nat, schedule: Seq<int>)
    requires
        threads <= u64::MAX,
    ensures
        Crowd::start(threads).run(kind, schedule).inv(kind),
        Crowd::start(threads).run(kind, schedule).places.len() == threads,
    decreases schedule.len(),
{
    if schedule.len() > 0 {
        let before = Crowd::start(threads).run(kind, schedule.drop_last());
        lemma_mutex_excludes(kind, threads, schedule.drop_last());
        if 0 <= schedule.last() < before.places.len() {
            lemma_crowd_step(before, kind, schedule.last());
        }
    }
}

/// Where a thread stands to a read/write lock.
pub enum RwPlace {
    Outside,
    Reading,
    Writing,
}

/// A read/write lock and the threads that use it.
pub struct RwCrowd {
    pub lock: RwState,
    pub places: Seq<RwPlace>,
}

/// The number of threads that read.
pub open spec fn count_reading(places: Seq<RwPlace>) -> nat
    decreases places.len(),
{
    if places.len() == 0 {
        0
    } else {
        count_reading(places.drop_last()) + (if places.last() is Reading {
            1nat
        } else {
            0nat
        })
    }
}

impl RwCrowd {
    /// A fresh lock with `threads` threads outside.
    pub open spec fn start(threads: nat) -> RwCrowd {
        RwCrowd { lock: RwState::fresh(), places: Seq::new(threads, |i: int| RwPlace::Outside) }
    }

    /// One move of thread `i`. Outside, it asks to write or to read, as
    /// `write` says, and is inside if it is let in. Inside, it unlocks what
    /// it holds.
    pub open spec fn step(self, kind: MutexKind, i: int, write: bool) -> RwCrowd {
        if 0 <= i < self.places.len() {
            match self.places[i] {
                RwPlace::Outside => if write {
                    RwCrowd {
                        lock: self.lock.write(kind, thread_at(i)),
                        places: if self.lock.write_outcome(kind, thread_at(i)) is Acquired {
                            self.places.update(i, RwPlace::Writing)
                        } else {
                            self.places
                        },
                    }
                } else {
                    RwCrowd {
                        lock: self.lock.read(kind, thread_at(i)),
                        places: if self.lock.read_outcome(kind, thread_at(i)) is Acquired {
                            self.places.update(i, RwPlace::Reading)
                        } else {
                            self.places
                        },
                    }
                },
                RwPlace::Reading => RwCrowd {
                    lock: self.lock.read_unlock(kind),
                    places: self.places.update(i, RwPlace::Outside),
                },
                RwPlace::Writing => RwCrowd {
                    lock: self.lock.write_unlock(kind),
                    places: self.places.update(i, RwPlace::Outside),
                },
            }
        } else {
            self
        }
    }

    /// The crowd after the threads have moved as `schedule` says; each entry
    /// names a thread and whether it asks to write if it is outside.
    pub open spec fn run(self, kind: MutexKind, schedule: Seq<(int, bool)>) -> RwCrowd
        decreases schedule.len(),
    {
        if schedule.len() == 0 {
            self
        } else {
            self.run(kind, schedule.drop_last()).step(kind, schedule.last().0, schedule.last().1)
        }
    }

    /// No reader is inside beside a writer, and no writer beside another.
    pub open spec fn exclusive(self) -> bool {
        forall|i: int, j: int|
            0 <= i < self.places.len() && 0 <= j < self.places.len() && i != j && (
            #[trigger] self.places[i]) is Writing ==> (#[trigger] self.places[j]) is Outside
    }

    /// No two threads are inside, be they readers or writers.
    pub open spec fn alone(self) -> bool {
        forall|i: int, j: int|
            0 <= i < self.places.len() && 0 <= j < self.places.len() && i != j && (
            #[trigger] self.places[i]) !is Outside ==> (#[trigger] self.places[j]) is Outside
    }

    /// The lock is valid and agrees with the threads. On the best tier it
    /// counts the readers and is held exclusively exactly while a thread
    /// writes. On a degraded tier its fallback mutex is held exactly while a
    /// thread is inside, and has that thread on record.
    pub open spec fn inv(self, kind: MutexKind) -> bool {
        &&& self.lock.wf(kind)
        &&& self.places.len() < usize::MAX
        &&& self.places.len() <= u64::MAX
        &&& self.exclusive()
        &&& if kind is SrwLock {
            &&& self.lock.srw.shared == count_reading(self.places)
            &&& self.lock.srw.exclusive <==> exists|i: int|
                0 <= i < self.places.len() && (#[trigger] self.places[i]) is Writing
        } else {
            &&& self.alone()
            &&& forall|i: int|
                0 <= i < self.places.len() && (#[trigger] self.places[i]) !is Outside
                    ==> self.lock.may_write_unlock(kind, thread_at(i))
            &&& self.lock.is_exclusive(kind) ==> exists|i: int|
                0 <= i < self.places.len() && (#[trigger] self.places[i]) !is Outside
        }
    }
}

/// Replacing one thread changes the count of readers by that thread alone.
proof fn lemma_reading_update(places: Seq<RwPlace>, i: int, next: RwPlace)
    requires
        0 <= i < places.len(),
    ensures
        count_reading(places.update(i, next)) + (if places[i] is Reading {
            1nat
        } else {
            0nat
        }) == count_reading(places) + (if next is Reading {
            1nat
        } else {
            0nat
        }),
        count_reading(places) <= places.len(),
    decreases places.len(),
{
    let updated = places.update(i, next);
    if i == places.len() - 1 {
        assert(updated.drop_last() == places.drop_last());
        lemma_reading_bounds(places.drop_last());
    } else {
        assert(updated.drop_last() == places.drop_last().update(i, next));
        lemma_reading_update(places.drop_last(), i, next);
    }
}

/// There are no more readers than threads, and none where nobody reads.
proof fn lemma_reading_bounds(places: Seq<RwPlace>)
    ensures
        count_reading(places) <= places.len(),
        (forall|i: int| 0 <= i < places.len() ==> (#[trigger] places[i]) !is Reading)
            ==> count_reading(places) == 0,
        count_reading(places) == 0 ==> forall|i: int|
            0 <= i < places.len() ==> (#[trigger] places[i]) !is Reading,
    decreases places.len(),
{
    if places.len() > 0 {
        let front = places.drop_last();
        lemma_reading_bounds(front);
        assert forall|i: int| 0 <= i < front.len() implies front[i] == places[i] by {}
        if count_reading(places) == 0 {
            assert forall|i: int| 0 <= i < places.len() implies (#[trigger] places[i]) !is Reading by {
                if i < front.len() {
                    assert(front[i] !is Reading);
                }
            }
        }
    }
}

/// A move keeps the agreement of lock and threads, and the thread that
/// moves is entitled to its move: a reader gives back a read acquisition that
/// exists, a writer the write acquisition, and a thread outside never meets a
/// recursion violation.
pub proof fn lemma_rw_crowd_step(c: RwCrowd, kind: MutexKind, i: int, write: bool)
    requires
        c.inv(kind),
        0 <= i < c.places.len(),
    ensures
        c.step(kind, i, write).inv(kind),
        c.step(kind, i, write).places.len() == c.places.len(),
        c.places[i] is Reading ==> c.lock.may_read_unlock(kind, thread_at(i)),
        c.places[i] is Writing ==> c.lock.may_write_unlock(kind, thread_at(i)),
        c.places[i] is Outside ==> c.lock.read_outcome(kind, thread_at(i))
            != LockOutcome::Recursive && c.lock.write_outcome(kind, thread_at(i))
            != LockOutcome::Recursive,
        c.lock.srw.shared < usize::MAX,
{
    let next = c.step(kind, i, write);
    lemma_reading_update(c.places, i, next.places[i]);
    lemma_reading_bounds(c.places);
    assert(next.places == c.places.update(i, next.places[i]));
}

/// However the threads that share a read/write lock take turns, on every
/// tier: a writer is never inside beside a reader or another writer. On the
/// best tier any number of readers may be inside together, and the lock
/// counts them. On a degraded tier no two threads are ever inside together,
/// readers included.
pub proof fn lemma_rwlock_excludes(kind: MutexKind, threads: nat, schedule: Seq<(int, bool)>)
    requires
        threads < usize::MAX,
        threads <= u64::MAX,
    ensures
        RwCrowd::start(threads).run(kind, schedule).inv(kind),
        RwCrowd::start(threads).run(kind, schedule).exclusive(),
        kind.is_degraded() ==> RwCrowd::start(threads).run(kind, schedule).alone(),
        RwCrowd::start(threads).run(kind, schedule).places.len() == threads,
    decreases schedule.len(),
{
    if schedule.len() == 0 {
        lemma_reading_bounds(RwCrowd::start(threads).places);
    } else {
        let before = RwCrowd::start(threads).run(kind, schedule.drop_last());
        lemma_rwlock_excludes(kind, threads, schedule.drop_last());
        if 0 <= schedule.last().0 < before.places.len() {
            lemma_rw_crowd_step(before, kind, schedule.last().0, schedule.last().1);
        }
    }
}

} // verus!
