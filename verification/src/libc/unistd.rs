//! Miscellaneous parts of `unistd.h`.

use vstd::prelude::*;
use crate::environment::{Environment, Thread, ThreadBlock};

verus! {

#[allow(non_camel_case_types)]
pub type useconds_t = u32;

/// Ticks of the engine's clock in one second: the clock counts nanoseconds.
pub const TICKS_PER_SECOND: u64 = 1_000_000_000;

/// Ticks of the engine's clock in one microsecond.
pub const TICKS_PER_MICROSECOND: u64 = 1_000;

/// Puts the running thread to sleep for `seconds` seconds, counted from the
/// instant `now`. Returns the number of seconds that were left unslept,
/// which is always zero: a sleep is never cut short.
pub fn sleep(env: &mut Environment, now: u64, seconds: u32) -> (unslept: u32)
    requires
        old(env)@.wf(),
        old(env)@.current().blocked_by is NotBlocked,
        now + seconds * TICKS_PER_SECOND <= u64::MAX,
    ensures
        unslept == 0,
        final(env)@ == old(env)@.with_current(
            Thread {
                blocked_by: ThreadBlock::Sleeping((now + seconds * TICKS_PER_SECOND) as u64),
                ..old(env)@.current()
            },
        ),
        final(env)@.wf(),
{
    assert(seconds * TICKS_PER_SECOND <= u64::MAX) by (nonlinear_arith)
        requires
            seconds <= u32::MAX,
            TICKS_PER_SECOND == 1_000_000_000,
    ;
    let duration: u64 = (seconds as u64) * TICKS_PER_SECOND;
    env.sleep(now, duration);
    0
}

/// Puts the running thread to sleep for `useconds` microseconds, counted
/// from the instant `now`. Returns zero for success.
pub fn usleep(env: &mut Environment, now: u64, useconds: useconds_t) -> (res: i32)
    requires
        old(env)@.wf(),
        old(env)@.current().blocked_by is NotBlocked,
        now + useconds * TICKS_PER_MICROSECOND <= u64::MAX,
    ensures
        res == 0,
        final(env)@ == old(env)@.with_current(
            Thread {
                blocked_by: ThreadBlock::Sleeping(
                    (now + useconds * TICKS_PER_MICROSECOND) as u64,
                ),
                ..old(env)@.current()
            },
        ),
        final(env)@.wf(),
{
    assert(useconds * TICKS_PER_MICROSECOND <= u64::MAX) by (nonlinear_arith)
        requires
            useconds <= u32::MAX,
            TICKS_PER_MICROSECOND == 1_000,
    ;
    let duration: u64 = (useconds as u64) * TICKS_PER_MICROSECOND;
    env.sleep(now, duration);
    0
}

} // verus!
