//! Unrecoverable emulator faults.
//!
//! A fault is not a guest-visible error: it reports that a documented
//! precondition of the engine was violated. It is handed up to the run loop,
//! which dumps diagnostics and halts.

use vstd::prelude::*;
use crate::cpu::CpuError;

verus! {

/// The reasons for which the engine stops for good.
#[derive(Clone, Copy, Debug, PartialEq, Eq, Structural)]
pub enum FatalFault {
    /// A normal mutex was locked again by the thread that already holds it.
    RelockByOwner,
    /// A normal mutex was unlocked while nobody held it.
    UnlockOfUnlocked,
    /// A normal mutex was unlocked by a thread other than its holder.
    UnlockByNonOwner,
    /// The thread-exit trap was taken by a thread that is not running a
    /// start routine.
    NonExitingThreadExited,
    /// A thread that already took its exit trap was asked to run again.
    ExitedThreadResumed,
    /// A thread was asked to run while its blocking condition is not cleared.
    BlockedThreadRunning,
    /// A trap was taken at an address other than the trampoline it belongs to.
    UnexpectedTrapAddress,
    /// The return-to-host trap was taken on a thread other than the one that
    /// entered the run segment.
    ReturnToHostOnWrongThread,
    /// A host routine returned with the program counter not just behind the
    /// trap instruction that invoked it.
    HostCallReturnMismatch,
    /// A host routine returned and left its thread blocked.
    BlockedAfterHostCall,
    /// A host-to-guest call ended on another thread than it began on.
    ThreadChangedDuringCall,
    /// No thread can run and none is sleeping.
    Deadlock,
    /// The CPU reported an error and no debugger is attached.
    CpuError(CpuError),
}

} // verus!
