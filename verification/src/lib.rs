//! Capability-graded synchronization primitives.
//!
//! A process runs on one of three generations of native locking primitive:
//! the slim lock, the critical section, or the kernel mutex object. Which
//! one is found out once, remembered, and every lock operation then
//! dispatches on it. The mutex, the reentrant mutex, the static mutex and the
//! read/write lock behave alike on all three, as far as the weakest allows.
//!
//! # How the locks are stated
//!
//! Whether a lock lets a thread in depends on who is inside, so every
//! operation names the thread it runs for, and the tier it runs on. A lock is
//! a value that records what its native primitive would: the state word of a
//! slim lock, the owner and entry count of a critical section or kernel
//! mutex, the backend slot, the held flag. An operation is one step on that
//! value. A blocking acquire that cannot be granted changes nothing and
//! answers `Blocked`: the caller is suspended and the step is due again once
//! the holder has let go. A violation that is fatal to the process, such as
//! locking a mutex twice, is answered by a value of its own, and aborting is
//! up to the caller.
//!
//! Each lock type has a view, a plain value with the same parts, and each
//! operation is characterized by functions on views. The laws of the locks
//! are proved of those functions, beside the types that they are about.
//! [`exclusion`] follows threads that share a lock through every schedule.
//!
//! # What runs on real atomics
//!
//! The tier cache and the backend slot are one shared word each.
//! [`mutex::compat::detect`] and [`mutex::compat::atomic_init`] work on
//! `AtomicUsize`. Nothing is known of the value that another thread may have
//! left there, so what they decide for each value stands in functions of
//! their own, and [`mutex::races`] follows all interleavings of their steps.
//!
//! # Beside the locks
//!
//! [`api`] and [`target_spec`] describe targets by the Windows versions whose
//! API they may use. [`rand`], [`c::rtl_gen_random`], [`c::wspiapi`] and
//! [`stack_overflow`] stand in for system services that the oldest systems
//! lack, and judge the system's answers where it has them.

pub mod api;
pub mod c;
pub mod exclusion;
pub mod mutex;
pub mod rand;
pub mod rwlock;
pub mod stack_overflow;
pub mod target_spec;
