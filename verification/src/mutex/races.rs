//! The tier cache and the backend slot under concurrent callers.
//!
//! Each caller is a small machine whose steps touch the shared word at most
//! once; a schedule names the caller that moves next. The laws hold after
//! every schedule, which is to say in every interleaving.

use crate::mutex::compat::cached;
use crate::mutex::compat::kind_of;
use crate::mutex::compat::kind_word;
use crate::mutex::compat::published;
use crate::mutex::compat::settle;
use crate::mutex::compat::MutexKind;
use vstd::prelude::*;

verus! {

/// Where one caller of `detect` stands.
pub enum Caller {
    /// About to load the cache.
    Ready,
    /// Found the cache empty; about to probe and to store the result.
    Probing,
    /// Returned this tier.
    Returned(MutexKind),
}

/// A tier cache and the threads that call `detect` on it.
pub struct Detector {
    pub cell: usize,
    pub callers: Seq<Caller>,
}

impl Detector {
    /// An empty cache and `threads` callers that have not started.
    pub open spec fn start(threads: nat) -> Detector {
        Detector { cell: 0, callers: Seq::new(threads, |i: int| Caller::Ready) }
    }

    /// One atomic step of caller `i` in a process whose probes answer `srw`
    /// and `cs`. A caller that has returned calls again.
    pub open spec fn step(self, i: int, srw: bool, cs: bool) -> Detector {
        if 0 <= i < self.callers.len() {
            match self.callers[i] {
                Caller::Probing => Detector {
                    cell: kind_word(kind_of(srw, cs)),
                    callers: self.callers.update(i, Caller::Returned(kind_of(srw, cs))),
                },
                _ => Detector {
                    cell: self.cell,
                    callers: self.callers.update(
                        i,
                        match cached(self.cell) {
                            Some(kind) => Caller::Returned(kind),
                            None => Caller::Probing,
                        },
                    ),
                },
            }
        } else {
            self
        }
    }

    /// The state after the callers have moved as `schedule` says.
    pub open spec fn run(self, schedule: Seq<int>, srw: bool, cs: bool) -> Detector
        decreases schedule.len(),
    {
        if schedule.len() == 0 {
            self
        } else {
            self.run(schedule.drop_last(), srw, cs).step(schedule.last(), srw, cs)
        }
    }

    /// The cache is empty or holds `kind`, and no caller has returned
    /// anything but `kind`.
    pub open spec fn agrees_on(self, kind: MutexKind) -> bool {
        &&& self.cell == 0 || self.cell == kind_word(kind)
        &&& forall|i: int|
            0 <= i < self.callers.len() ==> ((#[trigger] self.callers[i]) is Returned
                ==> self.callers[i] == Caller::Returned(kind))
    }
}

/// A step keeps the agreement, and never empties or changes a filled cache.
pub proof fn lemma_detect_step(d: Detector, i: int, srw: bool, cs: bool)
    requires
        d.agrees_on(kind_of(srw, cs)),
    ensures
        d.step(i, srw, cs).agrees_on(kind_of(srw, cs)),
        d.cell != 0 ==> d.step(i, srw, cs).cell == d.cell,
        d.step(i, srw, cs).callers.len() == d.callers.len(),
{
}

/// However many threads call `detect`, however often and in whatever
/// interleaving, every call returns the one tier that the probes select, and
/// the cache, once filled, holds that tier for good. The probes may run more
/// than once.
pub proof fn lemma_detect_agrees(threads: nat, schedule: Seq<int>, srw: bool, cs: bool)
    ensures
        Detector::start(threads).run(schedule, srw, cs).agrees_on(kind_of(srw, cs)),
        Detector::start(threads).run(schedule, srw, cs).callers.len() == threads,
    decreases schedule.len(),
{
    if schedule.len() > 0 {
        lemma_detect_agrees(threads, schedule.drop_last(), srw, cs);
        lemma_detect_step(
            Detector::start(threads).run(schedule.drop_last(), srw, cs),
            schedule.last(),
            srw,
            cs,
        );
    }
}

/// Where one caller of `atomic_init` stands.
pub enum Resolver {
    /// About to load the slot.
    Ready,
    /// Found the slot empty; about to build a backend.
    Building,
    /// Built this backend; about to try to publish it.
    Built(usize),
    /// Lost the exchange; about to destroy its own backend.
    Discarding { mine: usize, winner: usize },
    /// Returned this backend.
    Returned(usize),
}

impl Resolver {
    /// The backend that this caller has built and that is neither published
    /// nor destroyed.
    pub open spec fn pending(self) -> Option<usize> {
        match self {
            Resolver::Built(mine) => Some(mine),
            Resolver::Discarding { mine, winner } => Some(mine),
            _ => None,
        }
    }
}

/// A backend slot, the threads that resolve it, and the count of backends
/// built and destroyed so far.
pub struct Race {
    pub slot: usize,
    pub resolvers: Seq<Resolver>,
    pub built: nat,
    pub destroyed: nat,
}

/// The number of callers that hold a backend of their own.
pub open spec fn count_pending(resolvers: Seq<Resolver>) -> nat
    decreases resolvers.len(),
{
    if resolvers.len() == 0 {
        0
    } else {
        count_pending(resolvers.drop_last()) + (if resolvers.last().pending() is Some {
            1nat
        } else {
            0nat
        })
    }
}

/// What a compare-and-exchange from zero answers on a slot that holds
/// `slot`: success with the zero it found, or failure with what it found
/// instead. It writes only where it succeeds.
pub open spec fn exchanged(slot: usize) -> Result<usize, usize> {
    if slot == 0 {
        Ok(0)
    } else {
        Err(slot)
    }
}

impl Race {
    /// An unresolved slot and `threads` callers that have not started.
    pub open spec fn start(threads: nat) -> Race {
        Race {
            slot: 0,
            resolvers: Seq::new(threads, |i: int| Resolver::Ready),
            built: 0,
            destroyed: 0,
        }
    }

    /// The backend exists: it is published, or a caller holds it.
    pub open spec fn is_live(self, backend: usize) -> bool {
        self.slot == backend || exists|j: int|
            0 <= j < self.resolvers.len() && (#[trigger] self.resolvers[j]).pending() == Some(
                backend,
            )
    }

    /// One atomic step of caller `i`. A caller that builds gets `fresh` from
    /// the allocator. An allocator hands out no null and nothing that exists,
    /// so with such a `fresh` the step does not happen.
    pub open spec fn step(self, i: int, fresh: usize) -> Race {
        if 0 <= i < self.resolvers.len() {
            match self.resolvers[i] {
                Resolver::Ready => Race {
                    resolvers: self.resolvers.update(
                        i,
                        match published(self.slot) {
                            Some(backend) => Resolver::Returned(backend),
                            None => Resolver::Building,
                        },
                    ),
                    ..self
                },
                Resolver::Building => if fresh == 0 || self.is_live(fresh) {
                    self
                } else {
                    Race {
                        resolvers: self.resolvers.update(i, Resolver::Built(fresh)),
                        built: self.built + 1,
                        ..self
                    }
                },
                Resolver::Built(mine) => Race {
                    slot: if self.slot == 0 {
                        mine
                    } else {
                        self.slot
                    },
                    resolvers: self.resolvers.update(
                        i,
                        match settle(exchanged(self.slot), mine).discard {
                            None => Resolver::Returned(settle(exchanged(self.slot), mine).backend),
                            Some(loser) => Resolver::Discarding {
                                mine: loser,
                                winner: settle(exchanged(self.slot), mine).backend,
                            },
                        },
                    ),
                    ..self
                },
                Resolver::Discarding { mine, winner } => Race {
                    resolvers: self.resolvers.update(i, Resolver::Returned(winner)),
                    destroyed: self.destroyed + 1,
                    ..self
                },
                Resolver::Returned(_) => self,
            }
        } else {
            self
        }
    }

    /// The state after the callers have moved as `schedule` says; each entry
    /// names a caller and what the allocator would hand out at that moment.
    pub open spec fn run(self, schedule: Seq<(int, usize)>) -> Race
        decreases schedule.len(),
    {
        if schedule.len() == 0 {
            self
        } else {
            self.run(schedule.drop_last()).step(schedule.last().0, schedule.last().1)
        }
    }

    /// Every caller has returned.
    pub open spec fn quiescent(self) -> bool {
        forall|i: int| 0 <= i < self.resolvers.len() ==> (#[trigger] self.resolvers[i]) is Returned
    }

    /// What holds at every moment of a race.
    pub open spec fn inv(self) -> bool {
        &&& forall|i: int|
            0 <= i < self.resolvers.len() ==> match #[trigger] self.resolvers[i] {
                Resolver::Ready => true,
                Resolver::Building => true,
                Resolver::Built(mine) => mine != 0 && mine != self.slot,
                Resolver::Discarding { mine, winner } => mine != 0 && mine != self.slot && winner
                    == self.slot && self.slot != 0,
                Resolver::Returned(backend) => backend == self.slot && self.slot != 0,
            }
        &&& forall|i: int, j: int|
            0 <= i < j < self.resolvers.len() && (#[trigger] self.resolvers[i]).pending() is Some
                ==> self.resolvers[i].pending() != (#[trigger] self.resolvers[j]).pending()
        &&& self.built == self.destroyed + count_pending(self.resolvers) + (if self.slot != 0 {
            1nat
        } else {
            0nat
        })
    }
}

/// Replacing one caller changes the count of pending backends by that caller alone.
proof fn lemma_count_update(resolvers: Seq<Resolver>, i: int, next: Resolver)
    requires
        0 <= i < resolvers.len(),
    ensures
        count_pending(resolvers.update(i, next)) + (if resolvers[i].pending() is Some {
            1nat
        } else {
            0nat
        }) == count_pending(resolvers) + (if next.pending() is Some {
            1nat
        } else {
            0nat
        }),
    decreases resolvers.len(),
{
    let updated = resolvers.update(i, next);
    if i == resolvers.len() - 1 {
        assert(updated.drop_last() == resolvers.drop_last());
    } else {
        assert(updated.drop_last() == resolvers.drop_last().update(i, next));
        lemma_count_update(resolvers.drop_last(), i, next);
    }
}

/// Callers of which none holds a backend hold none in sum.
proof fn lemma_count_none(resolvers: Seq<Resolver>)
    requires
        forall|i: int| 0 <= i < resolvers.len() ==> (#[trigger] resolvers[i]).pending() is None,
    ensures
        count_pending(resolvers) == 0,
    decreases resolvers.len(),
{
    if resolvers.len() > 0 {
        lemma_count_none(resolvers.drop_last());
    }
}

/// A step keeps the invariant, and never changes a slot that is resolved.
pub proof fn lemma_race_step(r: Race, i: int, fresh: usize)
    requires
        r.inv(),
    ensures
        r.step(i, fresh).inv(),
        r.slot != 0 ==> r.step(i, fresh).slot == r.slot,
        r.step(i, fresh).resolvers.len() == r.resolvers.len(),
{
    let next = r.step(i, fresh);
    if 0 <= i < r.resolvers.len() && next != r {
        lemma_count_update(r.resolvers, i, next.resolvers[i]);
        assert(next.resolvers == r.resolvers.update(i, next.resolvers[i]));
    }
}

/// The invariant holds after every schedule.
pub proof fn lemma_race_inv(threads: nat, schedule: Seq<(int, usize)>)
    ensures
        Race::start(threads).run(schedule).inv(),
        Race::start(threads).run(schedule).resolvers.len() == threads,
    decreases schedule.len(),
{
    if schedule.len() == 0 {
        lemma_count_none(Race::start(threads).resolvers);
    } else {
        lemma_race_inv(threads, schedule.drop_last());
        lemma_race_step(
            Race::start(threads).run(schedule.drop_last()),
            schedule.last().0,
            schedule.last().1,
        );
    }
}

/// However many threads resolve one fresh slot and in whatever interleaving:
/// once all of them have returned, all hold the backend that the slot
/// publishes, at least one backend was built, and all that were built but
/// that one were destroyed, each by the thread that built it.
pub proof fn lemma_one_backend_survives(threads: nat, schedule: Seq<(int, usize)>)
    requires
        threads > 0,
        Race::start(threads).run(schedule).quiescent(),
    ensures
        ({
            let end = Race::start(threads).run(schedule);
            &&& end.slot != 0
            &&& forall|i: int|
                0 <= i < threads ==> (#[trigger] end.resolvers[i]) == Resolver::Returned(end.slot)
            &&& end.built >= 1
            &&& end.destroyed == end.built - 1
        }),
{
    lemma_race_inv(threads, schedule);
    let end = Race::start(threads).run(schedule);
    assert(end.resolvers[0] is Returned);
    lemma_count_none(end.resolvers);
}

} // verus!
