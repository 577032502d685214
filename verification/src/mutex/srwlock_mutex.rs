//! The native slim lock: one state word that is free, held exclusively, or
//! shared by a number of readers. The word records no owner.

use crate::mutex::Wait;
use vstd::prelude::*;

verus! {

/// What a slim lock's state word stands for.
pub struct SrwState {
    /// One thread holds the lock exclusively.
    pub exclusive: bool,
    /// The number of shared acquisitions that have not been released.
    pub shared: nat,
}

impl SrwState {
    /// The state of a zeroed word.
    pub open spec fn free() -> SrwState {
        SrwState { exclusive: false, shared: 0 }
    }

    /// Nobody holds the lock.
    pub open spec fn is_free(self) -> bool {
        !self.exclusive && self.shared == 0
    }

    /// Shared and exclusive holders never coexist.
    pub open spec fn wf(self) -> bool {
        !(self.exclusive && self.shared > 0)
    }

    /// An exclusive acquire is granted on a free lock only.
    pub open spec fn grants_exclusive(self) -> bool {
        self.is_free()
    }

    /// A shared acquire is granted whenever no thread holds the lock exclusively.
    pub open spec fn grants_shared(self) -> bool {
        !self.exclusive
    }

    /// The state after an exclusive acquire was asked for: held exclusively where
    /// it is granted, unchanged where it is not.
    pub open spec fn acquire_exclusive(self) -> SrwState {
        if self.grants_exclusive() {
            SrwState { exclusive: true, shared: 0 }
        } else {
            self
        }
    }

    /// The state after the exclusive holder released.
    pub open spec fn release_exclusive(self) -> SrwState {
        SrwState { exclusive: false, shared: self.shared }
    }

    /// The state after a shared acquire was asked for: one reader more where it
    /// is granted, unchanged where it is not.
    pub open spec fn acquire_shared(self) -> SrwState {
        if self.grants_shared() {
            SrwState { exclusive: false, shared: self.shared + 1 }
        } else {
            self
        }
    }

    /// The state after one reader released.
    pub open spec fn release_shared(self) -> SrwState {
        SrwState { exclusive: self.exclusive, shared: (self.shared - 1) as nat }
    }
}

/// Readers and a writer never meet: whatever is acquired or released, in a
/// lock that held no reader beside a writer, none is beside one afterwards. A
/// release is made by a holder.
pub proof fn lemma_sharing_excludes_writing(s: SrwState)
    requires
        s.wf(),
    ensures
        SrwState::free().wf(),
        s.acquire_exclusive().wf(),
        s.acquire_shared().wf(),
        s.exclusive ==> s.release_exclusive().wf(),
        s.shared > 0 ==> s.release_shared().wf(),
        s.grants_exclusive() ==> s.grants_shared(),
        s.shared > 0 ==> !s.grants_exclusive() && s.grants_shared(),
        s.exclusive ==> !s.grants_exclusive() && !s.grants_shared(),
{
}

/// A slim lock. It needs no initialization and no teardown.
pub struct SrwLockMutex {
    exclusive: bool,
    shared: usize,
}

impl View for SrwLockMutex {
    type V = SrwState;

    closed spec fn view(&self) -> SrwState {
        SrwState { exclusive: self.exclusive, shared: self.shared as nat }
    }
}

impl SrwLockMutex {
    /// A zeroed word: a free lock.
    pub fn new() -> (lock: SrwLockMutex)
        ensures
            lock@ == SrwState::free(),
    {
        SrwLockMutex { exclusive: false, shared: 0 }
    }

    /// Exclusive acquire.
    pub fn lock(&mut self) -> (wait: Wait)
        ensures
            wait == (if old(self)@.grants_exclusive() {
                Wait::Granted
            } else {
                Wait::Blocked
            }),
            final(self)@ == old(self)@.acquire_exclusive(),
    {
        if self.try_lock() {
            Wait::Granted
        } else {
            Wait::Blocked
        }
    }

    /// Exclusive try-acquire: never blocks.
    pub fn try_lock(&mut self) -> (granted: bool)
        ensures
            granted == old(self)@.grants_exclusive(),
            final(self)@ == old(self)@.acquire_exclusive(),
    {
        if !self.exclusive && self.shared == 0 {
            self.exclusive = true;
            true
        } else {
            false
        }
    }

    /// Exclusive release.
    pub fn unlock(&mut self)
        requires
            old(self)@.exclusive,
        ensures
            final(self)@ == old(self)@.release_exclusive(),
    {
        self.exclusive = false;
    }

    /// Shared acquire.
    pub fn read(&mut self) -> (wait: Wait)
        requires
            old(self)@.shared < usize::MAX,
        ensures
            wait == (if old(self)@.grants_shared() {
                Wait::Granted
            } else {
                Wait::Blocked
            }),
            final(self)@ == old(self)@.acquire_shared(),
    {
        if self.try_read() {
            Wait::Granted
        } else {
            Wait::Blocked
        }
    }

    /// Shared try-acquire: never blocks.
    pub fn try_read(&mut self) -> (granted: bool)
        requires
            old(self)@.shared < usize::MAX,
        ensures
            granted == old(self)@.grants_shared(),
            final(self)@ == old(self)@.acquire_shared(),
    {
        if !self.exclusive {
            self.shared = self.shared + 1;
            true
        } else {
            false
        }
    }

    /// Shared release.
    pub fn read_unlock(&mut self)
        requires
            old(self)@.shared > 0,
        ensures
            final(self)@ == old(self)@.release_shared(),
    {
        self.shared = self.shared - 1;
    }
}

} // verus!
