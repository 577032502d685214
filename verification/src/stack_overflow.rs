//! Stack overflow reporting: what to make of the system's answers when the
//! exception handler is installed and stack space is reserved for it.
//!
//! The oldest systems lack both entry points and say so with one error code.
//! That answer is tolerated; any other failure is fatal.

use vstd::prelude::*;

verus! {

/// The error code of an entry point that the system does not implement.
pub const ERROR_CALL_NOT_IMPLEMENTED: u32 = 120;

/// The exception code of a stack overflow.
pub const EXCEPTION_STACK_OVERFLOW: u32 = 0xC000_00FD;

/// The handler's answer that sends the exception on to the next handler.
pub const EXCEPTION_CONTINUE_SEARCH: i32 = 0;

/// The stack space, in bytes, that is reserved for handling an overflow.
pub const STACK_GUARANTEE: u32 = 0x5000;

/// A failure that ends the process.
#[derive(Debug, Clone, Copy, PartialEq, Eq, Structural)]
pub enum Failure {
    /// "failed to install exception handler"
    Install,
    /// "failed to reserve stack space for exception handling"
    Reserve,
}

/// Proof that a thread's stack guarantee was dealt with.
#[derive(Debug, PartialEq, Eq)]
pub struct Handler;

/// A failed call is tolerated where the system lacks the entry point.
pub open spec fn tolerated(last_error: u32) -> bool {
    last_error == ERROR_CALL_NOT_IMPLEMENTED
}

impl Handler {
    /// Judges the answer to reserving stack space. `reserved` tells whether
    /// the call succeeded and `last_error` what the system gave as the reason
    /// if it did not. On a target whose API level includes the entry point
    /// (`native`), every failure is fatal; on an older target the entry point
    /// may be missing, and only another reason is fatal.
    pub fn new(reserved: bool, last_error: u32, native: bool) -> (handler: Result<Handler, Failure>)
        ensures
            handler is Ok <==> reserved || (!native && tolerated(last_error)),
            handler matches Err(failure) ==> failure == Failure::Reserve,
    {
        if reserved {
            Ok(Handler)
        } else if native {
            Err(Failure::Reserve)
        } else if last_error != ERROR_CALL_NOT_IMPLEMENTED {
            Err(Failure::Reserve)
        } else {
            Ok(Handler)
        }
    }
}

/// What the exception handler does with an exception.
pub struct Handling {
    /// Report a stack overflow before going on.
    pub report_overflow: bool,
    /// The answer to the system.
    pub disposition: i32,
}

/// Decides on an exception by its code: a stack overflow is reported, and
/// every exception is sent on to the next handler.
pub fn vectored_handler(exception_code: u32) -> (handling: Handling)
    ensures
        handling.report_overflow == (exception_code == EXCEPTION_STACK_OVERFLOW),
        handling.disposition == EXCEPTION_CONTINUE_SEARCH,
{
    Handling {
        report_overflow: exception_code == EXCEPTION_STACK_OVERFLOW,
        disposition: EXCEPTION_CONTINUE_SEARCH,
    }
}

/// Judges the answer to installing the exception handler: `installed` tells
/// whether the system returned a handle, `last_error` the reason if not.
/// A missing entry point is tolerated. After an `Ok` the caller reserves the
/// stack space of the main thread and hands the answer to `Handler::new`.
pub fn init(installed: bool, last_error: u32) -> (ready: Result<(), Failure>)
    ensures
        ready is Ok <==> installed || tolerated(last_error),
        ready matches Err(failure) ==> failure == Failure::Install,
{
    if !installed && last_error != ERROR_CALL_NOT_IMPLEMENTED {
        Err(Failure::Install)
    } else {
        Ok(())
    }
}

/// Nothing is torn down.
pub fn cleanup() {
}

} // verus!
