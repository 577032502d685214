//! The read/write lock: native sharing on the best tier, one exclusive mutex
//! for readers and writers alike on the degraded tiers.

use crate::mutex::compat::MutexKind;
use crate::mutex::srwlock_mutex::SrwLockMutex;
use crate::mutex::srwlock_mutex::SrwState;
use crate::mutex::LockOutcome;
use crate::mutex::Mutex;
use crate::mutex::MutexState;
use crate::mutex::ThreadId;
use crate::mutex::Wait;
use vstd::pervasive::unreached;
use vstd::prelude::*;

verus! {

/// What a read/write lock stands for: one cell that is the slim lock's state
/// word on the best tier, and the lazily resolved slot of a fallback mutex on
/// the degraded tiers.
pub struct RwState {
    pub srw: SrwState,
    pub backend: Option<MutexState>,
}

impl RwState {
    /// A zeroed cell, valid on every tier.
    pub open spec fn fresh() -> RwState {
        RwState { srw: SrwState::free(), backend: None }
    }

    /// Validity on a tier. On the best tier the cell is a slim lock word in
    /// which readers and a writer never coexist. On a degraded tier a
    /// resolved slot holds a valid, initialized mutex.
    pub open spec fn wf(self, kind: MutexKind) -> bool {
        if kind is SrwLock {
            self.backend is None && self.srw.wf()
        } else {
            &&& self.srw.is_free()
            &&& self.backend matches Some(mutex) ==> mutex.wf(kind) && mutex.materialized()
        }
    }

    /// The fallback mutex of a degraded tier as the next operation finds it:
    /// the one in the slot, or a new initialized one.
    pub open spec fn fallback(self, kind: MutexKind) -> MutexState {
        match self.backend {
            Some(mutex) => mutex,
            None => MutexState::fresh().init(kind),
        }
    }

    /// Nobody is inside, neither reading nor writing.
    pub open spec fn is_free(self, kind: MutexKind) -> bool {
        if kind is SrwLock {
            self.srw.is_free()
        } else {
            !self.fallback(kind).is_locked(kind)
        }
    }

    /// A writer is inside or, on a degraded tier, anyone at all.
    pub open spec fn is_exclusive(self, kind: MutexKind) -> bool {
        if kind is SrwLock {
            self.srw.exclusive
        } else {
            self.fallback(kind).is_locked(kind)
        }
    }

    /// How a `read` by `thread` goes. On the best tier it is granted unless a
    /// writer is inside. On a degraded tier it goes as a `lock` of the fallback mutex.
    pub open spec fn read_outcome(self, kind: MutexKind, thread: ThreadId) -> LockOutcome {
        if kind is SrwLock {
            if self.srw.grants_shared() {
                LockOutcome::Acquired
            } else {
                LockOutcome::Blocked
            }
        } else {
            self.fallback(kind).lock_outcome(kind, thread)
        }
    }

    /// The state after a `read` or `try_read` by `thread`.
    pub open spec fn read(self, kind: MutexKind, thread: ThreadId) -> RwState {
        if kind is SrwLock {
            RwState { srw: self.srw.acquire_shared(), backend: self.backend }
        } else {
            RwState { srw: self.srw, backend: Some(self.fallback(kind).lock(kind, thread)) }
        }
    }

    /// How a `write` by `thread` goes. On the best tier it is granted when nobody
    /// is inside. On a degraded tier it goes as a `lock` of the fallback mutex.
    pub open spec fn write_outcome(self, kind: MutexKind, thread: ThreadId) -> LockOutcome {
        if kind is SrwLock {
            if self.srw.grants_exclusive() {
                LockOutcome::Acquired
            } else {
                LockOutcome::Blocked
            }
        } else {
            self.fallback(kind).lock_outcome(kind, thread)
        }
    }

    /// The state after a `write` or `try_write` by `thread`.
    pub open spec fn write(self, kind: MutexKind, thread: ThreadId) -> RwState {
        if kind is SrwLock {
            RwState { srw: self.srw.acquire_exclusive(), backend: self.backend }
        } else {
            RwState { srw: self.srw, backend: Some(self.fallback(kind).lock(kind, thread)) }
        }
    }

    /// What entitles `thread` to a read unlock: a shared hold exists on the
    /// best tier; the fallback mutex is held by `thread` on a degraded tier.
    pub open spec fn may_read_unlock(self, kind: MutexKind, thread: ThreadId) -> bool {
        if kind is SrwLock {
            self.srw.shared > 0
        } else {
            self.fallback(kind).is_locked(kind) && self.fallback(kind).holder(kind) == Some(thread)
        }
    }

    /// The state after a read unlock.
    pub open spec fn read_unlock(self, kind: MutexKind) -> RwState {
        if kind is SrwLock {
            RwState { srw: self.srw.release_shared(), backend: self.backend }
        } else {
            RwState { srw: self.srw, backend: Some(self.fallback(kind).released(kind)) }
        }
    }

    /// What entitles `thread` to a write unlock.
    pub open spec fn may_write_unlock(self, kind: MutexKind, thread: ThreadId) -> bool {
        if kind is SrwLock {
            self.srw.exclusive
        } else {
            self.fallback(kind).is_locked(kind) && self.fallback(kind).holder(kind) == Some(thread)
        }
    }

    /// The state after a write unlock.
    pub open spec fn write_unlock(self, kind: MutexKind) -> RwState {
        if kind is SrwLock {
            RwState { srw: self.srw.release_exclusive(), backend: self.backend }
        } else {
            RwState { srw: self.srw, backend: Some(self.fallback(kind).released(kind)) }
        }
    }
}

/// A lock that many readers or one writer may hold.
pub struct RWLock {
    lock: SrwLockMutex,
    backend: Option<Box<Mutex>>,
}

impl View for RWLock {
    type V = RwState;

    closed spec fn view(&self) -> RwState {
        RwState {
            srw: self.lock@,
            backend: match self.backend {
                Some(mutex) => Some(mutex@),
                None => None,
            },
        }
    }
}

impl RWLock {
    /// A zeroed cell, usable on every tier.
    pub fn new() -> (lock: RWLock)
        ensures
            lock@ == RwState::fresh(),
    {
        RWLock { lock: SrwLockMutex::new(), backend: None }
    }

    /// Acquires the lock for reading.
    pub fn read(&mut self, kind: MutexKind, thread: ThreadId) -> (outcome: LockOutcome)
        requires
            old(self)@.wf(kind),
            old(self)@.srw.shared < usize::MAX,
        ensures
            outcome == old(self)@.read_outcome(kind, thread),
            final(self)@ == old(self)@.read(kind, thread),
            final(self)@.wf(kind),
    {
        match kind {
            MutexKind::SrwLock => match self.lock.read() {
                Wait::Granted => LockOutcome::Acquired,
                Wait::Blocked => LockOutcome::Blocked,
            },
            MutexKind::CriticalSection | MutexKind::Legacy => self.lock_fallback(kind, thread),
        }
    }

    /// Acquires the lock for reading if that needs no waiting.
    pub fn try_read(&mut self, kind: MutexKind, thread: ThreadId) -> (acquired: bool)
        requires
            old(self)@.wf(kind),
            old(self)@.srw.shared < usize::MAX,
        ensures
            acquired == (old(self)@.read_outcome(kind, thread) == LockOutcome::Acquired),
            final(self)@ == old(self)@.read(kind, thread),
            final(self)@.wf(kind),
    {
        match kind {
            MutexKind::SrwLock => self.lock.try_read(),
            MutexKind::CriticalSection | MutexKind::Legacy => self.try_lock_fallback(kind, thread),
        }
    }

    /// Acquires the lock for writing.
    pub fn write(&mut self, kind: MutexKind, thread: ThreadId) -> (outcome: LockOutcome)
        requires
            old(self)@.wf(kind),
        ensures
            outcome == old(self)@.write_outcome(kind, thread),
            final(self)@ == old(self)@.write(kind, thread),
            final(self)@.wf(kind),
    {
        match kind {
            MutexKind::SrwLock => match self.lock.lock() {
                Wait::Granted => LockOutcome::Acquired,
                Wait::Blocked => LockOutcome::Blocked,
            },
            MutexKind::CriticalSection | MutexKind::Legacy => self.lock_fallback(kind, thread),
        }
    }

    /// Acquires the lock for writing if that needs no waiting.
    pub fn try_write(&mut self, kind: MutexKind, thread: ThreadId) -> (acquired: bool)
        requires
            old(self)@.wf(kind),
        ensures
            acquired == (old(self)@.write_outcome(kind, thread) == LockOutcome::Acquired),
            final(self)@ == old(self)@.write(kind, thread),
            final(self)@.wf(kind),
    {
        match kind {
            MutexKind::SrwLock => self.lock.try_lock(),
            MutexKind::CriticalSection | MutexKind::Legacy => self.try_lock_fallback(kind, thread),
        }
    }

    /// Gives back one read acquisition.
    pub fn read_unlock(&mut self, kind: MutexKind, thread: ThreadId)
        requires
            old(self)@.wf(kind),
            old(self)@.may_read_unlock(kind, thread),
        ensures
            final(self)@ == old(self)@.read_unlock(kind),
            final(self)@.wf(kind),
    {
        match kind {
            MutexKind::SrwLock => self.lock.read_unlock(),
            MutexKind::CriticalSection | MutexKind::Legacy => self.unlock_fallback(kind, thread),
        }
    }

    /// Gives back the write acquisition.
    pub fn write_unlock(&mut self, kind: MutexKind, thread: ThreadId)
        requires
            old(self)@.wf(kind),
            old(self)@.may_write_unlock(kind, thread),
        ensures
            final(self)@ == old(self)@.write_unlock(kind),
            final(self)@.wf(kind),
    {
        match kind {
            MutexKind::SrwLock => self.lock.unlock(),
            MutexKind::CriticalSection | MutexKind::Legacy => self.unlock_fallback(kind, thread),
        }
    }

    /// Tears the lock down. Reports whether a native object was destroyed:
    /// only the fallback mutex of a degraded tier has one, and only if the
    /// slot was ever resolved.
    pub fn destroy(&mut self, kind: MutexKind) -> (native: bool)
        requires
            old(self)@.wf(kind),
            old(self)@.is_free(kind),
        ensures
            native == (kind.is_degraded() && old(self)@.backend is Some),
            final(self)@ == RwState::fresh(),
    {
        match kind {
            MutexKind::SrwLock => false,
            MutexKind::CriticalSection | MutexKind::Legacy => match self.backend.take() {
                None => false,
                Some(mut mutex) => mutex.destroy(kind),
            },
        }
    }

    /// Resolves the slot: creates and initializes the fallback mutex unless
    /// the slot holds one already.
    fn remutex(&mut self, kind: MutexKind)
        requires
            kind.is_degraded(),
            old(self)@.wf(kind),
        ensures
            final(self)@ == (RwState {
                srw: old(self)@.srw,
                backend: Some(old(self)@.fallback(kind)),
            }),
            final(self)@.wf(kind),
    {
        if self.backend.is_none() {
            let mut mutex = Mutex::new();
            mutex.init(kind);
            self.backend = Some(Box::new(mutex));
        }
    }

    /// Locks the fallback mutex, for a reader or a writer.
    fn lock_fallback(&mut self, kind: MutexKind, thread: ThreadId) -> (outcome: LockOutcome)
        requires
            kind.is_degraded(),
            old(self)@.wf(kind),
        ensures
            outcome == old(self)@.fallback(kind).lock_outcome(kind, thread),
            final(self)@ == old(self)@.write(kind, thread),
            final(self)@.wf(kind),
    {
        self.remutex(kind);
        match self.backend.take() {
            None => unreached(),
            Some(mut mutex) => {
                let outcome = mutex.lock(kind, thread);
                self.backend = Some(mutex);
                outcome
            },
        }
    }

    /// Tries to lock the fallback mutex, for a reader or a writer.
    fn try_lock_fallback(&mut self, kind: MutexKind, thread: ThreadId) -> (acquired: bool)
        requires
            kind.is_degraded(),
            old(self)@.wf(kind),
        ensures
            acquired == !old(self)@.fallback(kind).is_locked(kind),
            final(self)@ == old(self)@.write(kind, thread),
            final(self)@.wf(kind),
    {
        self.remutex(kind);
        match self.backend.take() {
            None => unreached(),
            Some(mut mutex) => {
                let acquired = mutex.try_lock(kind, thread);
                self.backend = Some(mutex);
                acquired
            },
        }
    }

    /// Unlocks the fallback mutex, for a reader or a writer.
    fn unlock_fallback(&mut self, kind: MutexKind, thread: ThreadId)
        requires
            kind.is_degraded(),
            old(self)@.wf(kind),
            old(self)@.may_write_unlock(kind, thread),
        ensures
            final(self)@ == old(self)@.write_unlock(kind),
            final(self)@.wf(kind),
    {
        self.remutex(kind);
        match self.backend.take() {
            None => unreached(),
            Some(mut mutex) => {
                mutex.unlock(kind, thread);
                self.backend = Some(mutex);
            },
        }
    }
}

/// The state after the given threads have each called `read`, in order.
pub open spec fn after_reads(s: RwState, kind: MutexKind, readers: Seq<ThreadId>) -> RwState
    decreases readers.len(),
{
    if readers.len() == 0 {
        s
    } else {
        after_reads(s, kind, readers.drop_last()).read(kind, readers.last())
    }
}

/// The state after `count` calls of `read_unlock`.
pub open spec fn after_read_unlocks(s: RwState, kind: MutexKind, count: nat) -> RwState
    decreases count,
{
    if count == 0 {
        s
    } else {
        after_read_unlocks(s, kind, (count - 1) as nat).read_unlock(kind)
    }
}

/// On the best tier any number of threads read at once: while no writer is
/// inside, every `read` of a row of readers is granted, and each adds one
/// shared hold.
pub proof fn lemma_readers_share(s: RwState, readers: Seq<ThreadId>)
    requires
        s.wf(MutexKind::SrwLock),
        !s.srw.exclusive,
    ensures
        forall|i: int|
            0 <= i < readers.len() ==> (#[trigger] after_reads(
                s,
                MutexKind::SrwLock,
                readers.take(i),
            )).read_outcome(MutexKind::SrwLock, readers[i]) == LockOutcome::Acquired,
        after_reads(s, MutexKind::SrwLock, readers) == (RwState {
            srw: SrwState { exclusive: false, shared: s.srw.shared + readers.len() },
            backend: s.backend,
        }),
        after_reads(s, MutexKind::SrwLock, readers).wf(MutexKind::SrwLock),
    decreases readers.len(),
{
    if readers.len() > 0 {
        let front = readers.drop_last();
        lemma_readers_share(s, front);
        assert forall|i: int| 0 <= i < readers.len() implies (#[trigger] after_reads(
            s,
            MutexKind::SrwLock,
            readers.take(i),
        )).read_outcome(MutexKind::SrwLock, readers[i]) == LockOutcome::Acquired by {
            if i < front.len() {
                assert(readers.take(i) == front.take(i));
                assert(readers[i] == front[i]);
            } else {
                assert(readers.take(i) == front);
            }
        }
    }
}

/// On the best tier a writer is let in exactly when nobody is inside: it
/// waits, changing nothing, while any reader holds the lock, and a reader
/// waits, changing nothing, while a writer is inside.
pub proof fn lemma_writer_excludes_readers(s: RwState, thread: ThreadId)
    requires
        s.wf(MutexKind::SrwLock),
    ensures
        s.write_outcome(MutexKind::SrwLock, thread) == LockOutcome::Acquired <==> s.is_free(
            MutexKind::SrwLock,
        ),
        !s.is_free(MutexKind::SrwLock) ==> s.write_outcome(MutexKind::SrwLock, thread)
            == LockOutcome::Blocked && s.write(MutexKind::SrwLock, thread) == s,
        s.srw.exclusive ==> s.read_outcome(MutexKind::SrwLock, thread) == LockOutcome::Blocked
            && s.read(MutexKind::SrwLock, thread) == s,
        s.write(MutexKind::SrwLock, thread).wf(MutexKind::SrwLock),
{
}

/// On the best tier, readers that entered a free lock keep a writer waiting
/// until the last of them has left: after fewer unlocks than reads the write
/// is still blocked, after as many it is granted.
pub proof fn lemma_writer_proceeds_after_last_reader(
    readers: Seq<ThreadId>,
    unlocked: nat,
    writer: ThreadId,
)
    requires
        unlocked <= readers.len(),
    ensures
        after_read_unlocks(
            after_reads(RwState::fresh(), MutexKind::SrwLock, readers),
            MutexKind::SrwLock,
            unlocked,
        ).srw == (SrwState { exclusive: false, shared: (readers.len() - unlocked) as nat }),
        after_read_unlocks(
            after_reads(RwState::fresh(), MutexKind::SrwLock, readers),
            MutexKind::SrwLock,
            unlocked,
        ).write_outcome(MutexKind::SrwLock, writer) == (if unlocked == readers.len() {
            LockOutcome::Acquired
        } else {
            LockOutcome::Blocked
        }),
    decreases unlocked,
{
    lemma_readers_share(RwState::fresh(), readers);
    if unlocked > 0 {
        lemma_writer_proceeds_after_last_reader(readers, (unlocked - 1) as nat, writer);
    }
}

/// On a degraded tier readers exclude each other: once one thread has read
/// access, a `read` by another thread waits and a `try_read` fails, and
/// neither changes anything.
pub proof fn lemma_degraded_readers_exclude(
    s: RwState,
    kind: MutexKind,
    first: ThreadId,
    second: ThreadId,
)
    requires
        kind.is_degraded(),
        s.wf(kind),
        s.is_free(kind),
        first != second,
    ensures
        s.read_outcome(kind, first) == LockOutcome::Acquired,
        s.read(kind, first).wf(kind),
        s.read(kind, first).may_read_unlock(kind, first),
        s.read(kind, first).read_outcome(kind, second) == LockOutcome::Blocked,
        s.read(kind, first).read(kind, second) == s.read(kind, first),
{
}

/// On a degraded tier nobody is let in while anybody is inside, whether
/// either of them reads or writes.
pub proof fn lemma_degraded_lock_is_exclusive(s: RwState, kind: MutexKind, thread: ThreadId)
    requires
        kind.is_degraded(),
        s.wf(kind),
        !s.is_free(kind),
    ensures
        s.read_outcome(kind, thread) != LockOutcome::Acquired,
        s.write_outcome(kind, thread) != LockOutcome::Acquired,
        s.read(kind, thread) == s,
        s.write(kind, thread) == s,
{
}

/// A lock that was never used has no fallback mutex, on any tier, so that
/// `destroy` on it reports no native teardown.
pub proof fn lemma_fresh_rwlock_has_no_backend(kind: MutexKind)
    ensures
        RwState::fresh().wf(kind),
        RwState::fresh().is_free(kind),
        RwState::fresh().backend is None,
{
}

} // verus!
