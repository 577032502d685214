//! The critical section: an exclusive native lock that its owner may enter
//! again, and the exclusive mutex's path over a reentrant backend.

use crate::mutex::compat::MutexKind;
use crate::mutex::LockOutcome;
use crate::mutex::Mutex;
use crate::mutex::MutexState;
use crate::mutex::ReentrantMutex;
use crate::mutex::ThreadId;
use crate::mutex::Wait;
use vstd::pervasive::unreached;
use vstd::prelude::*;

verus! {

/// What a native lock that records its owner stands for: a critical section
/// or a kernel mutex object.
pub struct OwnerState {
    /// The native object exists: it was initialized and not yet deleted.
    pub live: bool,
    /// The thread that is inside, if any.
    pub owner: Option<ThreadId>,
    /// How many times the owner has entered without leaving.
    pub depth: nat,
}

impl OwnerState {
    /// Storage that holds no native object yet.
    pub open spec fn blank() -> OwnerState {
        OwnerState { live: false, owner: None, depth: 0 }
    }

    /// A native object that nobody has entered.
    pub open spec fn created() -> OwnerState {
        OwnerState { live: true, owner: None, depth: 0 }
    }

    /// An owner is recorded exactly while the entry count is positive.
    pub open spec fn wf(self) -> bool {
        self.owner is Some <==> self.depth > 0
    }

    /// Entry is granted to anyone while the lock is free, and to the owner at any time.
    pub open spec fn grants(self, thread: ThreadId) -> bool {
        self.owner is None || self.owner == Some(thread)
    }

    /// The state after `thread` asked to enter: one entry more for a thread that
    /// is granted entry, no change for one that is not.
    pub open spec fn enter(self, thread: ThreadId) -> OwnerState {
        if self.grants(thread) {
            OwnerState { live: self.live, owner: Some(thread), depth: self.depth + 1 }
        } else {
            self
        }
    }

    /// The state after the owner left once: one entry less, and no owner on
    /// record once the last entry is given back.
    pub open spec fn leave(self) -> OwnerState {
        OwnerState {
            live: self.live,
            owner: if self.depth <= 1 {
                None
            } else {
                self.owner
            },
            depth: (self.depth - 1) as nat,
        }
    }
}

/// Entering and leaving keep the record of the owner in step with the entry
/// count, whoever enters and however often.
pub proof fn lemma_owner_record_is_kept(s: OwnerState, thread: ThreadId)
    requires
        s.wf(),
    ensures
        s.enter(thread).wf(),
        s.depth > 0 ==> s.leave().wf(),
        OwnerState::blank().wf(),
        OwnerState::created().wf(),
{
}

/// A critical section.
pub struct CriticalSectionMutex {
    live: bool,
    owner: Option<ThreadId>,
    depth: u32,
}

impl View for CriticalSectionMutex {
    type V = OwnerState;

    closed spec fn view(&self) -> OwnerState {
        OwnerState { live: self.live, owner: self.owner, depth: self.depth as nat }
    }
}

impl CriticalSectionMutex {
    /// Storage for a critical section, not yet initialized.
    pub fn new() -> (section: CriticalSectionMutex)
        ensures
            section@ == OwnerState::blank(),
    {
        CriticalSectionMutex { live: false, owner: None, depth: 0 }
    }

    /// Initializes the native object.
    pub fn init(&mut self)
        ensures
            final(self)@ == OwnerState::created(),
    {
        self.live = true;
        self.owner = None;
        self.depth = 0;
    }

    /// Enters, or reports that the caller has to wait for another owner.
    pub fn lock(&mut self, thread: ThreadId) -> (wait: Wait)
        requires
            old(self)@.live,
            old(self)@.depth < u32::MAX,
        ensures
            wait == (if old(self)@.grants(thread) {
                Wait::Granted
            } else {
                Wait::Blocked
            }),
            final(self)@ == old(self)@.enter(thread),
    {
        if self.try_lock(thread) {
            Wait::Granted
        } else {
            Wait::Blocked
        }
    }

    /// Enters if that needs no waiting.
    pub fn try_lock(&mut self, thread: ThreadId) -> (granted: bool)
        requires
            old(self)@.live,
            old(self)@.depth < u32::MAX,
        ensures
            granted == old(self)@.grants(thread),
            final(self)@ == old(self)@.enter(thread),
    {
        let free = match self.owner {
            None => true,
            Some(owner) => owner == thread,
        };
        if free {
            self.owner = Some(thread);
            self.depth = self.depth + 1;
        }
        free
    }

    /// Leaves once.
    pub fn unlock(&mut self, thread: ThreadId)
        requires
            old(self)@.live,
            old(self)@.owner == Some(thread),
            old(self)@.depth > 0,
        ensures
            final(self)@ == old(self)@.leave(),
    {
        if self.depth <= 1 {
            self.owner = None;
        }
        self.depth = self.depth - 1;
    }

    /// Deletes the native object.
    pub fn destroy(&mut self)
        requires
            old(self)@.live,
        ensures
            final(self)@ == OwnerState::blank(),
    {
        self.live = false;
        self.owner = None;
        self.depth = 0;
    }
}

} // verus!

verus! {

impl Mutex {
    /// Resolves the backend slot: creates and initializes the reentrant
    /// backend unless the slot holds one already.
    pub(crate) fn remutex(&mut self, kind: MutexKind)
        requires
            kind.is_degraded(),
            old(self)@.wf(kind),
        ensures
            final(self)@ == old(self)@.resolved(kind),
            final(self)@.wf(kind),
    {
        if self.backend.is_none() {
            let mut re = ReentrantMutex::uninitialized();
            re.init(kind);
            self.backend = Some(Box::new(re));
        }
    }

    /// Sets the held flag and reports whether it was clear before.
    pub(crate) fn flag_locked(&mut self) -> (claimed: bool)
        ensures
            claimed == !old(self)@.held,
            final(self)@ == (MutexState {
                srw: old(self)@.srw,
                backend: old(self)@.backend,
                held: true,
            }),
    {
        if self.held {
            false
        } else {
            self.held = true;
            true
        }
    }

    /// Clears the held flag.
    pub(crate) fn clear_flag(&mut self)
        ensures
            final(self)@ == old(self)@.flag_cleared(),
    {
        self.held = false;
    }

    /// Leaves the backend once.
    pub(crate) fn leave_backend(&mut self, kind: MutexKind, thread: ThreadId)
        requires
            old(self)@.backend matches Some(re) && re.active(kind).live && re.active(kind).owner
                == Some(thread) && re.active(kind).depth > 0,
        ensures
            final(self)@ == old(self)@.backend_left(kind),
    {
        match self.backend.take() {
            None => unreached(),
            Some(mut re) => {
                re.unlock(kind, thread);
                self.backend = Some(re);
            },
        }
    }
}

/// Locks a mutex of a degraded tier: resolves the backend, enters it, then
/// claims the held flag. A flag that was set already shows that the backend
/// let its own owner in again; the entry is given back and the violation
/// reported.
pub fn lock(mutex: &mut Mutex, kind: MutexKind, thread: ThreadId) -> (outcome: LockOutcome)
    requires
        kind.is_degraded(),
        old(mutex)@.wf(kind),
    ensures
        outcome == old(mutex)@.lock_outcome(kind, thread),
        final(mutex)@ == old(mutex)@.lock(kind, thread),
        final(mutex)@.wf(kind),
{
    mutex.remutex(kind);
    match mutex.backend.take() {
        None => unreached(),
        Some(mut re) => {
            let outcome = match re.lock(kind, thread) {
                Wait::Blocked => LockOutcome::Blocked,
                Wait::Granted => {
                    let outcome = LockOutcome::after_entry(!mutex.flag_locked());
                    match outcome {
                        LockOutcome::Recursive => re.unlock(kind, thread),
                        _ => {},
                    }
                    outcome
                },
            };
            mutex.backend = Some(re);
            outcome
        },
    }
}

/// Tries to lock a mutex of a degraded tier. An entry that the backend
/// granted to its own owner is given back before failure is reported.
pub fn try_lock(mutex: &mut Mutex, kind: MutexKind, thread: ThreadId) -> (acquired: bool)
    requires
        kind.is_degraded(),
        old(mutex)@.wf(kind),
    ensures
        acquired == !old(mutex)@.is_locked(kind),
        final(mutex)@ == old(mutex)@.lock(kind, thread),
        final(mutex)@.wf(kind),
{
    mutex.remutex(kind);
    match mutex.backend.take() {
        None => unreached(),
        Some(mut re) => {
            let acquired = if !re.try_lock(kind, thread) {
                false
            } else {
                match LockOutcome::after_entry(!mutex.flag_locked()) {
                    LockOutcome::Acquired => true,
                    _ => {
                        re.unlock(kind, thread);
                        false
                    },
                }
            };
            mutex.backend = Some(re);
            acquired
        },
    }
}

/// Unlocks a mutex of a degraded tier: clears the held flag, then leaves the
/// backend. In this order no thread finds the backend free while the flag
/// still says held; `lemma_flag_cleared_first` is about the state in between.
pub fn unlock(mutex: &mut Mutex, kind: MutexKind, thread: ThreadId)
    requires
        kind.is_degraded(),
        old(mutex)@.wf(kind),
        old(mutex)@.is_locked(kind),
        old(mutex)@.holder(kind) == Some(thread),
    ensures
        final(mutex)@ == old(mutex)@.released(kind),
        final(mutex)@.wf(kind),
{
    mutex.clear_flag();
    mutex.leave_backend(kind, thread);
}

/// Destroys the backend of a mutex of a degraded tier if the slot was ever
/// resolved, and reports whether it was.
pub fn destroy(mutex: &mut Mutex, kind: MutexKind) -> (native: bool)
    requires
        kind.is_degraded(),
        old(mutex)@.wf(kind),
        !old(mutex)@.is_locked(kind),
    ensures
        native == old(mutex)@.materialized(),
        final(mutex)@ == MutexState::fresh(),
{
    match mutex.backend.take() {
        None => false,
        Some(mut re) => {
            re.destroy(kind);
            true
        },
    }
}

} // verus!
