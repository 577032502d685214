//! The kernel mutex object of the oldest systems: created on demand, reached
//! through a handle, and reentrant for the thread that owns it.
//!
//! The free functions judge what the kernel answered to each call. The
//! `LegacyMutex` couples them with the behaviour of one such object.

use crate::mutex::critical_section_mutex::OwnerState;
use crate::mutex::ThreadId;
use crate::mutex::Wait;
use vstd::pervasive::unreached;
use vstd::prelude::*;

verus! {

/// Wait result: the object was signaled and now belongs to the caller.
pub const WAIT_OBJECT_0: u32 = 0;

/// Wait result: the time-out elapsed while another thread owned the object.
pub const WAIT_TIMEOUT: u32 = 258;

/// A native call failed in a way that leaves the lock unusable.
#[derive(Debug, Clone, Copy, PartialEq, Eq, Structural)]
pub enum NativeFailure {
    /// The kernel created no mutex object.
    Create,
    /// A blocking wait ended without handing the object over.
    Lock,
    /// A wait without time-out ended in neither ownership nor time-out.
    TryLock,
    /// The kernel refused to release the object.
    Unlock,
    /// The kernel refused to close the handle.
    Destroy,
}

/// Judges the handle that object creation returned: a null handle is a failure.
pub fn init(new_handle: usize) -> (handle: Result<usize, NativeFailure>)
    ensures
        handle == (if new_handle == 0 {
            Err::<usize, NativeFailure>(NativeFailure::Create)
        } else {
            Ok(new_handle)
        }),
{
    if new_handle == 0 {
        Err(NativeFailure::Create)
    } else {
        Ok(new_handle)
    }
}

/// Judges the result of a wait without time limit: only ownership is a success.
pub fn lock(wait_result: u32) -> (locked: Result<(), NativeFailure>)
    ensures
        locked == (if wait_result == WAIT_OBJECT_0 {
            Ok::<(), NativeFailure>(())
        } else {
            Err(NativeFailure::Lock)
        }),
{
    if wait_result == WAIT_OBJECT_0 {
        Ok(())
    } else {
        Err(NativeFailure::Lock)
    }
}

/// Judges the result of a wait with time-out zero: ownership, a time-out
/// because another thread owns the object, or a failure.
pub fn try_lock(wait_result: u32) -> (locked: Result<bool, NativeFailure>)
    ensures
        locked == (if wait_result == WAIT_OBJECT_0 {
            Ok::<bool, NativeFailure>(true)
        } else if wait_result == WAIT_TIMEOUT {
            Ok(false)
        } else {
            Err(NativeFailure::TryLock)
        }),
{
    if wait_result == WAIT_OBJECT_0 {
        Ok(true)
    } else if wait_result == WAIT_TIMEOUT {
        Ok(false)
    } else {
        Err(NativeFailure::TryLock)
    }
}

/// Judges the answer to a release: zero is a failure.
pub fn unlock(released: i32) -> (unlocked: Result<(), NativeFailure>)
    ensures
        unlocked == (if released != 0 {
            Ok::<(), NativeFailure>(())
        } else {
            Err(NativeFailure::Unlock)
        }),
{
    if released != 0 {
        Ok(())
    } else {
        Err(NativeFailure::Unlock)
    }
}

/// Judges the answer to closing the handle: zero is a failure.
pub fn destroy(closed: i32) -> (destroyed: Result<(), NativeFailure>)
    ensures
        destroyed == (if closed != 0 {
            Ok::<(), NativeFailure>(())
        } else {
            Err(NativeFailure::Destroy)
        }),
{
    if closed != 0 {
        Ok(())
    } else {
        Err(NativeFailure::Destroy)
    }
}

/// A kernel mutex object together with the handle that reaches it.
pub struct LegacyMutex {
    handle: usize,
    owner: Option<ThreadId>,
    depth: u32,
}

impl View for LegacyMutex {
    type V = OwnerState;

    closed spec fn view(&self) -> OwnerState {
        OwnerState { live: self.handle != 0, owner: self.owner, depth: self.depth as nat }
    }
}

impl LegacyMutex {
    /// A null handle: no object exists yet.
    pub fn new() -> (mutex: LegacyMutex)
        ensures
            mutex@ == OwnerState::blank(),
    {
        LegacyMutex { handle: 0, owner: None, depth: 0 }
    }

    /// The kernel creates an unowned object and names it by a handle.
    fn create(&mut self) -> (new_handle: usize)
        ensures
            new_handle != 0,
            final(self).handle == old(self).handle,
            final(self).owner is None,
            final(self).depth == 0,
    {
        self.owner = None;
        self.depth = 0;
        1
    }

    /// The kernel's answer to a wait on the object: ownership when it is free
    /// or the caller's already, a time-out when the caller will not wait, and
    /// no answer yet when the caller waits for another owner.
    fn wait(&mut self, thread: ThreadId, patient: bool) -> (wait_result: Option<u32>)
        requires
            old(self)@.depth < u32::MAX,
        ensures
            wait_result == (if old(self)@.grants(thread) {
                Some(WAIT_OBJECT_0)
            } else if patient {
                None
            } else {
                Some(WAIT_TIMEOUT)
            }),
            final(self)@ == old(self)@.enter(thread),
    {
        let free = match self.owner {
            None => true,
            Some(owner) => owner == thread,
        };
        if free {
            self.owner = Some(thread);
            self.depth = self.depth + 1;
            Some(WAIT_OBJECT_0)
        } else if patient {
            None
        } else {
            Some(WAIT_TIMEOUT)
        }
    }

    /// The kernel's answer to a release by the owner.
    fn release(&mut self) -> (released: i32)
        requires
            old(self)@.depth > 0,
        ensures
            released != 0,
            final(self)@ == old(self)@.leave(),
    {
        if self.depth <= 1 {
            self.owner = None;
        }
        self.depth = self.depth - 1;
        1
    }

    /// The kernel's answer to closing a handle that is open.
    fn close(&mut self) -> (closed: i32)
        ensures
            closed != 0,
            final(self)@ == OwnerState::blank(),
    {
        self.handle = 0;
        self.owner = None;
        self.depth = 0;
        1
    }

    /// Creates the kernel object and keeps its handle.
    pub fn init(&mut self)
        ensures
            final(self)@ == OwnerState::created(),
    {
        let new_handle = self.create();
        match init(new_handle) {
            Ok(handle) => {
                self.handle = handle;
            },
            Err(_) => unreached(),
        }
    }

    /// Waits for the object without time limit.
    pub fn lock(&mut self, thread: ThreadId) -> (wait: Wait)
        requires
            old(self)@.live,
            old(self)@.depth < u32::MAX,
        ensures
            wait == (if old(self)@.grants(thread) {
                Wait::Granted
            } else {
                Wait::Blocked
            }),
            final(self)@ == old(self)@.enter(thread),
    {
        match self.wait(thread, true) {
            None => Wait::Blocked,
            Some(wait_result) => match lock(wait_result) {
                Ok(()) => Wait::Granted,
                Err(_) => unreached(),
            },
        }
    }

    /// Takes the object if that needs no waiting.
    pub fn try_lock(&mut self, thread: ThreadId) -> (granted: bool)
        requires
            old(self)@.live,
            old(self)@.depth < u32::MAX,
        ensures
            granted == old(self)@.grants(thread),
            final(self)@ == old(self)@.enter(thread),
    {
        match self.wait(thread, false) {
            None => unreached(),
            Some(wait_result) => match try_lock(wait_result) {
                Ok(granted) => granted,
                Err(_) => unreached(),
            },
        }
    }

    /// Releases the object once.
    pub fn unlock(&mut self, thread: ThreadId)
        requires
            old(self)@.live,
            old(self)@.owner == Some(thread),
            old(self)@.depth > 0,
        ensures
            final(self)@ == old(self)@.leave(),
    {
        let released = self.release();
        match unlock(released) {
            Ok(()) => {},
            Err(_) => unreached(),
        }
    }

    /// Closes the handle.
    pub fn destroy(&mut self)
        requires
            old(self)@.live,
        ensures
            final(self)@ == OwnerState::blank(),
    {
        let closed = self.close();
        match destroy(closed) {
            Ok(()) => {},
            Err(_) => unreached(),
        }
    }
}

} // verus!
