//! POSIX error numbers surfaced by the emulated mutex, with the values the
//! guest's C library expects.

use vstd::prelude::*;

verus! {

/// Operation not permitted.
pub const EPERM: i32 = 1;

/// Resource deadlock avoided.
pub const EDEADLK: i32 = 11;

/// Resource busy.
pub const EBUSY: i32 = 16;

} // verus!
