//! Exclusive, reentrant and static mutexes over the three backend tiers.
//!
//! Every operation is told the tier of the process and the thread it runs
//! for. A blocking acquire that cannot be granted reports `Blocked` and
//! changes nothing: the caller stays suspended until the holder releases.

pub mod compat;
pub mod critical_section_mutex;
pub mod legacy_mutex;
pub mod races;
pub mod srwlock_mutex;

use crate::mutex::compat::MutexKind;
use crate::mutex::critical_section_mutex::CriticalSectionMutex;
use crate::mutex::critical_section_mutex::OwnerState;
use crate::mutex::legacy_mutex::LegacyMutex;
use crate::mutex::srwlock_mutex::SrwLockMutex;
use crate::mutex::srwlock_mutex::SrwState;
use vstd::pervasive::unreached;
use vstd::prelude::*;

verus! {

/// Names the thread on whose behalf an operation runs.
pub type ThreadId = u64;

/// How a blocking acquire of a native primitive went. A thread that is
/// `Blocked` has changed nothing and stays suspended until the holder lets go.
#[derive(Debug, Clone, Copy, PartialEq, Eq, Structural)]
pub enum Wait {
    Granted,
    Blocked,
}

/// How a blocking acquire of a lock that forbids re-entry went.
#[derive(Debug, Clone, Copy, PartialEq, Eq, Structural)]
pub enum LockOutcome {
    /// The caller now holds the lock.
    Acquired,
    /// Another holder is inside; nothing changed and the caller stays suspended.
    Blocked,
    /// The caller holds the lock already. This is fatal: the caller must abort
    /// with the diagnostic "cannot recursively lock a mutex".
    Recursive,
}

impl LockOutcome {
    /// What a lock attempt comes to once the reentrant backend has let the
    /// caller in, given the held flag as the caller found it. A flag that was
    /// set shows that the caller was inside already.
    pub open spec fn entered(was_held: bool) -> LockOutcome {
        if was_held {
            LockOutcome::Recursive
        } else {
            LockOutcome::Acquired
        }
    }

    /// Judges a lock attempt that the reentrant backend has let in.
    pub fn after_entry(was_held: bool) -> (outcome: LockOutcome)
        ensures
            outcome == LockOutcome::entered(was_held),
    {
        if was_held {
            LockOutcome::Recursive
        } else {
            LockOutcome::Acquired
        }
    }
}

/// What a reentrant mutex stands for: one storage area that holds a critical
/// section on the two newer tiers and a kernel mutex on the oldest.
pub struct ReentrantState {
    pub section: OwnerState,
    pub named: OwnerState,
}

impl ReentrantState {
    /// Storage in which no native object exists.
    pub open spec fn blank() -> ReentrantState {
        ReentrantState { section: OwnerState::blank(), named: OwnerState::blank() }
    }

    /// The native object that the tier uses.
    pub open spec fn active(self, kind: MutexKind) -> OwnerState {
        if kind is Legacy {
            self.named
        } else {
            self.section
        }
    }

    /// The storage with the native object of the tier in `state` and the rest as it is.
    pub open spec fn with_active(self, kind: MutexKind, state: OwnerState) -> ReentrantState {
        if kind is Legacy {
            ReentrantState { section: self.section, named: state }
        } else {
            ReentrantState { section: state, named: self.named }
        }
    }

    /// Initialized for the tier and entered by nobody.
    pub open spec fn idle(kind: MutexKind) -> ReentrantState {
        ReentrantState::blank().with_active(kind, OwnerState::created())
    }

    /// Initialized for the tier and entered once by `thread`.
    pub open spec fn held_by(kind: MutexKind, thread: ThreadId) -> ReentrantState {
        ReentrantState::blank().with_active(kind, OwnerState::created().enter(thread))
    }
}

/// A mutex that its owner may lock again. The native primitive counts the
/// entries; nothing here forbids or detects recursion.
pub struct ReentrantMutex {
    section: CriticalSectionMutex,
    named: LegacyMutex,
}

impl View for ReentrantMutex {
    type V = ReentrantState;

    closed spec fn view(&self) -> ReentrantState {
        ReentrantState { section: self.section@, named: self.named@ }
    }
}

impl ReentrantMutex {
    /// Storage that fits either native object, with none created yet.
    pub fn uninitialized() -> (mutex: ReentrantMutex)
        ensures
            mutex@ == ReentrantState::blank(),
    {
        ReentrantMutex { section: CriticalSectionMutex::new(), named: LegacyMutex::new() }
    }

    /// Creates the native object of the tier.
    pub fn init(&mut self, kind: MutexKind)
        ensures
            final(self)@ == old(self)@.with_active(kind, OwnerState::created()),
    {
        match kind {
            MutexKind::SrwLock | MutexKind::CriticalSection => self.section.init(),
            MutexKind::Legacy => self.named.init(),
        }
    }

    /// Enters, once more if the caller is inside already.
    pub fn lock(&mut self, kind: MutexKind, thread: ThreadId) -> (wait: Wait)
        requires
            old(self)@.active(kind).live,
            old(self)@.active(kind).depth < u32::MAX,
        ensures
            wait == (if old(self)@.active(kind).grants(thread) {
                Wait::Granted
            } else {
                Wait::Blocked
            }),
            final(self)@ == old(self)@.with_active(kind, old(self)@.active(kind).enter(thread)),
    {
        match kind {
            MutexKind::SrwLock | MutexKind::CriticalSection => self.section.lock(thread),
            MutexKind::Legacy => self.named.lock(thread),
        }
    }

    /// Enters if that needs no waiting. Recursion is no reason to refuse.
    pub fn try_lock(&mut self, kind: MutexKind, thread: ThreadId) -> (granted: bool)
        requires
            old(self)@.active(kind).live,
            old(self)@.active(kind).depth < u32::MAX,
        ensures
            granted == old(self)@.active(kind).grants(thread),
            final(self)@ == old(self)@.with_active(kind, old(self)@.active(kind).enter(thread)),
    {
        match kind {
            MutexKind::SrwLock | MutexKind::CriticalSection => self.section.try_lock(thread),
            MutexKind::Legacy => self.named.try_lock(thread),
        }
    }

    /// Leaves once.
    pub fn unlock(&mut self, kind: MutexKind, thread: ThreadId)
        requires
            old(self)@.active(kind).live,
            old(self)@.active(kind).owner == Some(thread),
            old(self)@.active(kind).depth > 0,
        ensures
            final(self)@ == old(self)@.with_active(kind, old(self)@.active(kind).leave()),
    {
        match kind {
            MutexKind::SrwLock | MutexKind::CriticalSection => self.section.unlock(thread),
            MutexKind::Legacy => self.named.unlock(thread),
        }
    }

    /// Deletes the native object of the tier.
    pub fn destroy(&mut self, kind: MutexKind)
        requires
            old(self)@.active(kind).live,
        ensures
            final(self)@ == old(self)@.with_active(kind, OwnerState::blank()),
    {
        match kind {
            MutexKind::SrwLock | MutexKind::CriticalSection => self.section.destroy(),
            MutexKind::Legacy => self.named.destroy(),
        }
    }
}

/// What an exclusive mutex stands for.
pub struct MutexState {
    /// The inline slim lock word, used on the best tier.
    pub srw: SrwState,
    /// The lazily created backend of the two degraded tiers; `None` while the
    /// slot is unresolved.
    pub backend: Option<ReentrantState>,
    /// The held flag of the two degraded tiers.
    pub held: bool,
}

impl MutexState {
    /// A zeroed mutex: valid on every tier, locked by nobody.
    pub open spec fn fresh() -> MutexState {
        MutexState { srw: SrwState::free(), backend: None, held: false }
    }

    /// Validity on a tier. On the best tier only the slim lock word is in
    /// use, and only exclusively. On a degraded tier the word stays zero, and
    /// a resolved backend is entered at most once, exactly while the held
    /// flag is set.
    pub open spec fn wf(self, kind: MutexKind) -> bool {
        if kind is SrwLock {
            self.backend is None && !self.held && self.srw.shared == 0
        } else {
            &&& self.srw.is_free()
            &&& match self.backend {
                None => !self.held,
                Some(re) => re == (match re.active(kind).owner {
                    None => ReentrantState::idle(kind),
                    Some(thread) => ReentrantState::held_by(kind, thread),
                }) && (self.held <==> re.active(kind).owner is Some),
            }
        }
    }

    /// Some thread is inside.
    pub open spec fn is_locked(self, kind: MutexKind) -> bool {
        if kind is SrwLock {
            self.srw.exclusive
        } else {
            self.held
        }
    }

    /// The thread that the native object of a degraded tier records as its
    /// owner. The slim lock of the best tier records none.
    pub open spec fn holder(self, kind: MutexKind) -> Option<ThreadId> {
        match self.backend {
            Some(re) if kind.is_degraded() => re.active(kind).owner,
            _ => None,
        }
    }

    /// The lazy backend slot is resolved.
    pub open spec fn materialized(self) -> bool {
        self.backend is Some
    }

    /// The state with the backend slot resolved: an existing backend stays,
    /// a missing one is created idle.
    pub open spec fn resolved(self, kind: MutexKind) -> MutexState {
        if self.backend is Some {
            self
        } else {
            MutexState { srw: self.srw, backend: Some(ReentrantState::idle(kind)), held: self.held }
        }
    }

    /// The state after `init`: on a degraded tier the backend slot is resolved.
    pub open spec fn init(self, kind: MutexKind) -> MutexState {
        if kind is SrwLock {
            self
        } else {
            self.resolved(kind)
        }
    }

    /// The state in which `thread` holds the lock.
    pub open spec fn acquired(self, kind: MutexKind, thread: ThreadId) -> MutexState {
        if kind is SrwLock {
            MutexState { srw: self.srw.acquire_exclusive(), backend: self.backend, held: self.held }
        } else {
            MutexState {
                srw: self.srw,
                backend: Some(ReentrantState::held_by(kind, thread)),
                held: true,
            }
        }
    }

    /// The state in which nobody holds the lock.
    pub open spec fn released(self, kind: MutexKind) -> MutexState {
        if kind is SrwLock {
            MutexState { srw: self.srw.release_exclusive(), backend: self.backend, held: self.held }
        } else {
            MutexState { srw: self.srw, backend: Some(ReentrantState::idle(kind)), held: false }
        }
    }

    /// The state with the held flag cleared and the backend untouched.
    pub open spec fn flag_cleared(self) -> MutexState {
        MutexState { srw: self.srw, backend: self.backend, held: false }
    }

    /// The state with the backend left once and the held flag untouched.
    pub open spec fn backend_left(self, kind: MutexKind) -> MutexState {
        MutexState {
            srw: self.srw,
            backend: match self.backend {
                Some(re) => Some(re.with_active(kind, re.active(kind).leave())),
                None => None,
            },
            held: self.held,
        }
    }

    /// A held flag that is set is backed by an owner of the backend. A state
    /// without this shows a free backend under a set flag: the next thread to
    /// enter would be taken for a recursive locker.
    pub open spec fn flag_is_backed(self, kind: MutexKind) -> bool {
        self.held ==> self.holder(kind) is Some
    }

    /// How a `lock` by `thread` goes: granted on a mutex that nobody holds; a
    /// violation where the backend has `thread` on record as the holder; a wait
    /// otherwise.
    pub open spec fn lock_outcome(self, kind: MutexKind, thread: ThreadId) -> LockOutcome {
        if !self.is_locked(kind) {
            LockOutcome::Acquired
        } else if self.holder(kind) == Some(thread) {
            LockOutcome::Recursive
        } else {
            LockOutcome::Blocked
        }
    }

    /// A lock that is granted takes the mutex; any other outcome changes nothing.
    pub open spec fn lock(self, kind: MutexKind, thread: ThreadId) -> MutexState {
        if self.is_locked(kind) {
            self
        } else {
            self.acquired(kind, thread)
        }
    }
}

/// A mutex with a single owner that must not be locked again by its holder.
///
/// On the best tier it is a slim lock word and nothing else. On the degraded
/// tiers it is a lazily created reentrant backend plus a held flag: the
/// backend would let its owner in again, and the flag turns that into a
/// reported violation.
pub struct Mutex {
    srwlock: SrwLockMutex,
    backend: Option<Box<ReentrantMutex>>,
    held: bool,
}

/// A mutex keeps working when it is moved: nothing points into it.
pub type MovableMutex = Mutex;

impl View for Mutex {
    type V = MutexState;

    closed spec fn view(&self) -> MutexState {
        MutexState {
            srw: self.srwlock@,
            backend: match self.backend {
                Some(re) => Some(re@),
                None => None,
            },
            held: self.held,
        }
    }
}

impl Mutex {
    /// The slim lock word of a mutex on the best tier, for primitives that
    /// wait on it natively.
    pub fn raw(&self, kind: MutexKind) -> (srwlock: &SrwLockMutex)
        requires
            kind is SrwLock,
        ensures
            srwlock@ == self@.srw,
    {
        &self.srwlock
    }

    /// A zeroed mutex, usable on every tier.
    pub fn new() -> (mutex: Mutex)
        ensures
            mutex@ == MutexState::fresh(),
    {
        Mutex { srwlock: SrwLockMutex::new(), backend: None, held: false }
    }

    /// Creates the native object where the tier needs one before first use.
    pub fn init(&mut self, kind: MutexKind)
        requires
            old(self)@.wf(kind),
        ensures
            final(self)@ == old(self)@.init(kind),
            final(self)@.wf(kind),
    {
        match kind {
            MutexKind::SrwLock => {},
            MutexKind::CriticalSection | MutexKind::Legacy => self.remutex(kind),
        }
    }

    /// Acquires the mutex for `thread`.
    pub fn lock(&mut self, kind: MutexKind, thread: ThreadId) -> (outcome: LockOutcome)
        requires
            old(self)@.wf(kind),
        ensures
            outcome == old(self)@.lock_outcome(kind, thread),
            final(self)@ == old(self)@.lock(kind, thread),
            final(self)@.wf(kind),
    {
        match kind {
            MutexKind::SrwLock => match self.srwlock.lock() {
                Wait::Granted => LockOutcome::Acquired,
                Wait::Blocked => LockOutcome::Blocked,
            },
            MutexKind::CriticalSection | MutexKind::Legacy => critical_section_mutex::lock(
                self,
                kind,
                thread,
            ),
        }
    }

    /// Acquires the mutex for `thread` if nobody holds it; never waits.
    pub fn try_lock(&mut self, kind: MutexKind, thread: ThreadId) -> (acquired: bool)
        requires
            old(self)@.wf(kind),
        ensures
            acquired == !old(self)@.is_locked(kind),
            final(self)@ == old(self)@.lock(kind, thread),
            final(self)@.wf(kind),
    {
        match kind {
            MutexKind::SrwLock => self.srwlock.try_lock(),
            MutexKind::CriticalSection | MutexKind::Legacy => critical_section_mutex::try_lock(
                self,
                kind,
                thread,
            ),
        }
    }

    /// Releases the mutex that `thread` holds.
    pub fn unlock(&mut self, kind: MutexKind, thread: ThreadId)
        requires
            old(self)@.wf(kind),
            old(self)@.is_locked(kind),
            kind.is_degraded() ==> old(self)@.holder(kind) == Some(thread),
        ensures
            final(self)@ == old(self)@.released(kind),
            final(self)@.wf(kind),
    {
        match kind {
            MutexKind::SrwLock => self.srwlock.unlock(),
            MutexKind::CriticalSection | MutexKind::Legacy => critical_section_mutex::unlock(
                self,
                kind,
                thread,
            ),
        }
    }

    /// Tears the mutex down. Reports whether a native object was destroyed:
    /// the best tier has none, and a degraded tier has one only if the
    /// backend slot was ever resolved.
    pub fn destroy(&mut self, kind: MutexKind) -> (native: bool)
        requires
            old(self)@.wf(kind),
            !old(self)@.is_locked(kind),
        ensures
            native == (kind.is_degraded() && old(self)@.materialized()),
            final(self)@ == MutexState::fresh(),
    {
        match kind {
            MutexKind::SrwLock => false,
            MutexKind::CriticalSection | MutexKind::Legacy => critical_section_mutex::destroy(
                self,
                kind,
            ),
        }
    }
}

/// The tier whose backend a static mutex uses. It never needs a try-lock, so
/// critical sections serve it on both degraded tiers.
pub open spec fn spec_static_kind(kind: MutexKind) -> MutexKind {
    if kind is Legacy {
        MutexKind::CriticalSection
    } else {
        kind
    }
}

/// The tier whose backend a static mutex uses.
#[verifier::when_used_as_spec(spec_static_kind)]
pub fn static_kind(kind: MutexKind) -> (backend: MutexKind)
    ensures
        backend == spec_static_kind(kind),
{
    match kind {
        MutexKind::SrwLock => MutexKind::SrwLock,
        MutexKind::CriticalSection | MutexKind::Legacy => MutexKind::CriticalSection,
    }
}

/// An exclusive mutex that is usable from its zeroed state, before any
/// initialization has run, and that is never torn down.
///
/// It stands for the same states as a `Mutex`, dispatched on `static_kind`.
pub struct StaticMutex {
    lock: SrwLockMutex,
    backend: Option<Box<CriticalSectionMutex>>,
    held: bool,
}

impl View for StaticMutex {
    type V = MutexState;

    closed spec fn view(&self) -> MutexState {
        MutexState {
            srw: self.lock@,
            backend: match self.backend {
                Some(re) => Some(ReentrantState { section: re@, named: OwnerState::blank() }),
                None => None,
            },
            held: self.held,
        }
    }
}

impl StaticMutex {
    /// A zeroed word is a free slim lock and an unresolved backend slot at once.
    pub fn new() -> (mutex: StaticMutex)
        ensures
            mutex@ == MutexState::fresh(),
    {
        StaticMutex { lock: SrwLockMutex::new(), backend: None, held: false }
    }

    /// Acquires the mutex for `thread`.
    pub fn lock(&mut self, kind: MutexKind, thread: ThreadId) -> (outcome: LockOutcome)
        requires
            old(self)@.wf(static_kind(kind)),
        ensures
            outcome == old(self)@.lock_outcome(static_kind(kind), thread),
            final(self)@ == old(self)@.lock(static_kind(kind), thread),
            final(self)@.wf(static_kind(kind)),
    {
        match static_kind(kind) {
            MutexKind::SrwLock => match self.lock.lock() {
                Wait::Granted => LockOutcome::Acquired,
                Wait::Blocked => LockOutcome::Blocked,
            },
            MutexKind::CriticalSection | MutexKind::Legacy => {
                self.remutex();
                match self.backend.take() {
                    None => unreached(),
                    Some(mut re) => {
                        let outcome = match re.lock(thread) {
                            Wait::Blocked => LockOutcome::Blocked,
                            Wait::Granted => {
                                let outcome = LockOutcome::after_entry(!self.flag_locked());
                                match outcome {
                                    LockOutcome::Recursive => re.unlock(thread),
                                    _ => {},
                                }
                                outcome
                            },
                        };
                        self.backend = Some(re);
                        outcome
                    },
                }
            },
        }
    }

    /// Releases the mutex that `thread` holds.
    pub fn unlock(&mut self, kind: MutexKind, thread: ThreadId)
        requires
            old(self)@.wf(static_kind(kind)),
            old(self)@.is_locked(static_kind(kind)),
            kind.is_degraded() ==> old(self)@.holder(static_kind(kind)) == Some(thread),
        ensures
            final(self)@ == old(self)@.released(static_kind(kind)),
            final(self)@.wf(static_kind(kind)),
    {
        match static_kind(kind) {
            MutexKind::SrwLock => self.lock.unlock(),
            MutexKind::CriticalSection | MutexKind::Legacy => {
                self.clear_flag();
                self.leave_backend(thread);
            },
        }
    }

    /// Resolves the backend slot: creates and initializes a critical section
    /// unless the slot holds one already.
    fn remutex(&mut self)
        requires
            old(self)@.wf(MutexKind::CriticalSection),
        ensures
            final(self)@ == old(self)@.resolved(MutexKind::CriticalSection),
            final(self)@.wf(MutexKind::CriticalSection),
    {
        if self.backend.is_none() {
            let mut re = CriticalSectionMutex::new();
            re.init();
            self.backend = Some(Box::new(re));
        }
    }

    /// Sets the held flag and reports whether it was clear before.
    fn flag_locked(&mut self) -> (claimed: bool)
        ensures
            claimed == !old(self)@.held,
            final(self)@ == (MutexState {
                srw: old(self)@.srw,
                backend: old(self)@.backend,
                held: true,
            }),
    {
        if self.held {
            false
        } else {
            self.held = true;
            true
        }
    }

    /// Clears the held flag.
    fn clear_flag(&mut self)
        ensures
            final(self)@ == old(self)@.flag_cleared(),
    {
        self.held = false;
    }

    /// Leaves the backend once.
    fn leave_backend(&mut self, thread: ThreadId)
        requires
            old(self)@.backend matches Some(re) && re.section.live && re.section.owner == Some(
                thread,
            ) && re.section.depth > 0,
        ensures
            final(self)@ == old(self)@.backend_left(MutexKind::CriticalSection),
    {
        match self.backend.take() {
            None => unreached(),
            Some(mut re) => {
                re.unlock(thread);
                self.backend = Some(re);
            },
        }
    }
}

/// The state after `thread` has entered `entries` times.
pub open spec fn after_entries(s: OwnerState, thread: ThreadId, entries: nat) -> OwnerState
    decreases entries,
{
    if entries == 0 {
        s
    } else {
        after_entries(s, thread, (entries - 1) as nat).enter(thread)
    }
}

/// The state after the owner has left `leaves` times.
pub open spec fn after_leaves(s: OwnerState, leaves: nat) -> OwnerState
    decreases leaves,
{
    if leaves == 0 {
        s
    } else {
        after_leaves(s.leave(), (leaves - 1) as nat)
    }
}

/// The owner of a reentrant mutex is let in again, by `lock` and by
/// `try_lock` alike, and each entry adds one to the count that the native
/// object keeps. Any other thread is kept out, and changes nothing.
pub proof fn lemma_owner_enters_again(s: OwnerState, owner: ThreadId, other: ThreadId)
    requires
        s.wf(),
        s.owner == Some(owner),
        other != owner,
    ensures
        s.grants(owner),
        s.enter(owner) == (OwnerState { live: s.live, owner: Some(owner), depth: s.depth + 1 }),
        s.enter(owner).wf(),
        s.enter(owner).leave() == s,
        !s.grants(other),
        s.enter(other) == s,
{
}

/// A reentrant mutex is free again once its owner has left as often as it entered.
pub proof fn lemma_leaves_match_entries(s: OwnerState, owner: ThreadId, entries: nat)
    requires
        s.wf(),
        s.owner is None,
    ensures
        after_leaves(after_entries(s, owner, entries), entries) == s,
        entries > 0 ==> after_entries(s, owner, entries).owner == Some(owner),
        after_entries(s, owner, entries).depth == entries,
        after_entries(s, owner, entries).live == s.live,
    decreases entries,
{
    if entries > 0 {
        lemma_leaves_match_entries(s, owner, (entries - 1) as nat);
        let before = after_entries(s, owner, (entries - 1) as nat);
        assert(before.grants(owner));
        assert(before.enter(owner).leave() == before);
    }
}

/// Two consecutive calls of one thread on an unlocked mutex, `lock` then
/// `unlock`, never block and never meet a violation: the lock is granted, the
/// caller is then entitled to unlock, and afterwards the mutex is unlocked
/// again, changed only in that its backend now exists.
pub proof fn lemma_lock_then_unlock(s: MutexState, kind: MutexKind, thread: ThreadId)
    requires
        s.wf(kind),
        !s.is_locked(kind),
    ensures
        s.lock_outcome(kind, thread) == LockOutcome::Acquired,
        s.lock(kind, thread).wf(kind),
        s.lock(kind, thread).is_locked(kind),
        kind.is_degraded() ==> s.lock(kind, thread).holder(kind) == Some(thread),
        s.lock(kind, thread).released(kind) == s.init(kind),
        s.init(kind).wf(kind),
        !s.init(kind).is_locked(kind),
{
}

/// A thread that holds the mutex and locks it again is never let in, and the
/// attempt changes nothing. On the degraded tiers the attempt is reported as a
/// recursive-lock violation. On the best tier the slim lock keeps the thread
/// waiting for itself.
pub proof fn lemma_second_lock_is_refused(s: MutexState, kind: MutexKind, thread: ThreadId)
    requires
        s.wf(kind),
        !s.is_locked(kind),
    ensures
        s.lock(kind, thread).lock_outcome(kind, thread) != LockOutcome::Acquired,
        kind.is_degraded() ==> s.lock(kind, thread).lock_outcome(kind, thread)
            == LockOutcome::Recursive,
        kind is SrwLock ==> s.lock(kind, thread).lock_outcome(kind, thread) == LockOutcome::Blocked,
        s.lock(kind, thread).lock(kind, thread) == s.lock(kind, thread),
{
}

/// While one thread holds the mutex, `try_lock` by another thread fails and
/// leaves every part of the mutex as it was, so that no third thread can tell
/// that the attempt was made. A blocking `lock` by the other thread waits.
pub proof fn lemma_try_lock_while_held(
    s: MutexState,
    kind: MutexKind,
    holder: ThreadId,
    other: ThreadId,
)
    requires
        s.wf(kind),
        !s.is_locked(kind),
        other != holder,
    ensures
        s.lock(kind, holder).is_locked(kind),
        s.lock(kind, holder).lock(kind, other) == s.lock(kind, holder),
        s.lock(kind, holder).lock_outcome(kind, other) == LockOutcome::Blocked,
{
}

/// Whenever a mutex is held, a thread other than the one on record is kept
/// out: its `lock` waits, its `try_lock` fails, and either leaves the mutex as
/// it was. The best tier keeps no record, and keeps every thread out.
pub proof fn lemma_held_mutex_excludes(s: MutexState, kind: MutexKind, other: ThreadId)
    requires
        s.wf(kind),
        s.is_locked(kind),
        s.holder(kind) != Some(other),
    ensures
        s.lock_outcome(kind, other) == LockOutcome::Blocked,
        s.lock(kind, other) == s,
{
}

/// A mutex that was never locked nor initialized has no native object, on
/// any tier: its backend slot is unresolved, which is the one case in which
/// `destroy` reports no native teardown on a degraded tier.
pub proof fn lemma_fresh_mutex_has_no_backend(kind: MutexKind)
    ensures
        MutexState::fresh().wf(kind),
        !MutexState::fresh().is_locked(kind),
        !MutexState::fresh().materialized(),
{
}

/// An unlock on a degraded tier passes through one state between its two
/// steps. With the flag cleared first, that state still backs its flag, and
/// leaving the backend then completes the release. Had the backend been left
/// first, the state in between would show a set flag over a free backend.
pub proof fn lemma_flag_cleared_first(s: MutexState, kind: MutexKind)
    requires
        kind.is_degraded(),
        s.wf(kind),
        s.is_locked(kind),
    ensures
        s.flag_cleared().flag_is_backed(kind),
        s.flag_cleared().backend_left(kind) == s.released(kind),
        !s.backend_left(kind).flag_is_backed(kind),
        s.backend_left(kind).flag_cleared() == s.released(kind),
{
}

/// On a degraded tier the held flag is set exactly while the native backend
/// has an owner, and the owner has entered exactly once.
pub proof fn lemma_flag_follows_owner(s: MutexState, kind: MutexKind)
    requires
        s.wf(kind),
        kind.is_degraded(),
    ensures
        s.is_locked(kind) <==> s.holder(kind) is Some,
        s.backend matches Some(re) ==> re.active(kind).live && re.active(kind).depth == (if s.held {
            1nat
        } else {
            0nat
        }),
{
}

} // verus!
