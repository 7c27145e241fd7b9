//! Laws of the mutex and of the scheduler, proved from their definitions.

use vstd::prelude::*;
use crate::environment::mutex::{HostMutexId, MutexHostObject, MutexType};
use crate::environment::{EnvironmentView, Thread, ThreadBlock, ThreadID};
use crate::errno::{EDEADLK, EPERM};
use crate::fault::FatalFault;

verus! {

/// The mutex after `thread` locked it `n` times in a row.
pub open spec fn locked_times(m: MutexHostObject, thread: ThreadID, n: nat) -> MutexHostObject
    decreases n,
{
    if n == 0 {
        m
    } else {
        locked_times(m, thread, (n - 1) as nat).after_lock(thread)
    }
}

/// The mutex after `thread` unlocked it `n` times in a row.
pub open spec fn unlocked_times(m: MutexHostObject, thread: ThreadID, n: nat) -> MutexHostObject
    decreases n,
{
    if n == 0 {
        m
    } else {
        unlocked_times(m, thread, (n - 1) as nat).after_unlock(thread)
    }
}

/// Whatever the flavour of a mutex: where a thread locks it without having
/// to wait, its unlock puts the mutex back exactly as it was. If the mutex
/// was free it is free again, and a lock from any other thread then succeeds
/// at once and makes that thread the holder.
pub proof fn law_unlock_undoes_lock(m: MutexHostObject, thread: ThreadID, other: ThreadID)
    requires
        m.wf(),
        !m.held_by_other(thread),
        m.lock_result(thread) matches Ok(Ok(_)),
        m.locked matches Some((_, count)) ==> count < u32::MAX,
        other != thread,
    ensures
        m.after_lock(thread).held_by(thread),
        m.after_lock(thread).unlock_result(thread) matches Ok(Ok(_)),
        m.after_lock(thread).after_unlock(thread) == m,
        m.locked is None ==> {
            &&& m.lock_result(thread) == Ok::<Result<u32, i32>, FatalFault>(Ok(1))
            &&& m.after_lock(thread).unlock_result(thread) == Ok::<Result<u32, i32>, FatalFault>(
                Ok(0),
            )
            &&& m.after_lock(thread).after_unlock(thread).locked is None
            &&& m.after_lock(thread).after_unlock(thread).lock_result(other) == Ok::<
                Result<u32, i32>,
                FatalFault,
            >(Ok(1))
            &&& m.after_lock(thread).after_unlock(thread).after_lock(other).held_by(other)
        },
{
}

/// The same on the engine's state: where the running thread locks a free
/// mutex and unlocks it again, the state is what it was before.
pub proof fn law_unlock_restores_state(v: EnvironmentView, mutex_id: HostMutexId)
    requires
        v.mutexes.contains_key(mutex_id),
        v.mutexes[mutex_id].locked is None,
    ensures
        v.after_mutex_lock(mutex_id).mutex_is_locked(mutex_id),
        v.after_mutex_lock(mutex_id).after_mutex_unlock(mutex_id) == v,
{
    let w = v.after_mutex_lock(mutex_id).after_mutex_unlock(mutex_id);
    assert(w.mutexes =~= v.mutexes);
}

/// On a free recursive mutex, the `k`-th of `n` locks in a row by one thread
/// returns `k`, and the `k`-th of the `n` unlocks that follow returns
/// `n - k`. The mutex is held throughout and is free only after the `n`-th
/// unlock.
pub proof fn law_recursive_counts(m: MutexHostObject, thread: ThreadID, n: nat, k: nat)
    requires
        m.type_ == MutexType::PTHREAD_MUTEX_RECURSIVE,
        m.locked is None,
        1 <= k <= n <= u32::MAX,
    ensures
        locked_times(m, thread, (k - 1) as nat).lock_result(thread) == Ok::<
            Result<u32, i32>,
            FatalFault,
        >(Ok(k as u32)),
        locked_times(m, thread, k).locked == Some((thread, k as u32)),
        unlocked_times(locked_times(m, thread, n), thread, (k - 1) as nat).unlock_result(thread)
            == Ok::<Result<u32, i32>, FatalFault>(Ok((n - k) as u32)),
        unlocked_times(locked_times(m, thread, n), thread, k).locked is None <==> k == n,
        unlocked_times(locked_times(m, thread, n), thread, n) == m,
{
    lemma_locked_times(m, thread, k);
    lemma_unlocked_times(m, thread, n, (k - 1) as nat);
    lemma_unlocked_times(m, thread, n, n);
}

/// What a recursive mutex holds after `k` locks in a row.
proof fn lemma_locked_times(m: MutexHostObject, thread: ThreadID, k: nat)
    requires
        m.type_ == MutexType::PTHREAD_MUTEX_RECURSIVE,
        m.locked is None,
        k <= u32::MAX,
    ensures
        locked_times(m, thread, k) == (MutexHostObject {
            locked: if k == 0 {
                None
            } else {
                Some((thread, k as u32))
            },
            ..m
        }),
    decreases k,
{
    if k > 0 {
        lemma_locked_times(m, thread, (k - 1) as nat);
    }
}

/// What a recursive mutex holds after `n` locks and `k` unlocks in a row.
proof fn lemma_unlocked_times(m: MutexHostObject, thread: ThreadID, n: nat, k: nat)
    requires
        m.type_ == MutexType::PTHREAD_MUTEX_RECURSIVE,
        m.locked is None,
        k <= n <= u32::MAX,
    ensures
        unlocked_times(locked_times(m, thread, n), thread, k) == (MutexHostObject {
            locked: if k == n {
                None
            } else {
                Some((thread, (n - k) as u32))
            },
            ..m
        }),
    decreases k,
{
    lemma_locked_times(m, thread, n);
    if k > 0 {
        lemma_unlocked_times(m, thread, n, (k - 1) as nat);
    }
}

/// An error-checking mutex reports misuse as an error and does not change:
/// a lock by the holder gives `EDEADLK`, an unlock by a thread that does not
/// hold the mutex gives `EPERM`.
pub proof fn law_error_checking_reports(m: MutexHostObject, thread: ThreadID)
    requires
        m.type_ == MutexType::PTHREAD_MUTEX_ERRORCHECK,
    ensures
        m.held_by(thread) ==> m.lock_result(thread) == Ok::<Result<u32, i32>, FatalFault>(
            Err(EDEADLK),
        ) && m.after_lock(thread) == m,
        !m.held_by(thread) ==> m.unlock_result(thread) == Ok::<Result<u32, i32>, FatalFault>(
            Err(EPERM),
        ) && m.after_unlock(thread) == m,
{
}

/// A normal mutex answers misuse with a fault and does not change: a lock by
/// the holder, an unlock while the mutex is free, and an unlock by a thread
/// other than the holder.
pub proof fn law_normal_faults(m: MutexHostObject, thread: ThreadID)
    requires
        m.type_ == MutexType::PTHREAD_MUTEX_NORMAL,
    ensures
        m.held_by(thread) ==> m.lock_result(thread) == Err::<Result<u32, i32>, FatalFault>(
            FatalFault::RelockByOwner,
        ) && m.after_lock(thread) == m,
        m.locked is None ==> m.unlock_result(thread) == Err::<Result<u32, i32>, FatalFault>(
            FatalFault::UnlockOfUnlocked,
        ),
        m.held_by_other(thread) ==> m.unlock_result(thread) == Err::<
            Result<u32, i32>,
            FatalFault,
        >(FatalFault::UnlockByNonOwner),
        !m.held_by(thread) ==> m.after_unlock(thread) == m,
{
}

/// The scheduler's pick is unique: no two threads are first in round-robin
/// order among those that can run.
pub proof fn law_pick_is_unique(v: EnvironmentView, i: int, j: int, now: u64)
    requires
        v.threads_wf(),
        v.picked(i, now),
        v.picked(j, now),
    ensures
        i == j,
{
}

/// Where exactly one thread can run, the scheduler picks it, whichever
/// thread is running and wherever the others stand in the scan order.
pub proof fn law_sole_runnable_is_picked(v: EnvironmentView, i: int, now: u64)
    requires
        v.threads_wf(),
        0 <= i < v.threads.len(),
        v.eligible(i, now),
        forall|j: int| 0 <= j < v.threads.len() && j != i ==> !v.eligible(j, now),
    ensures
        v.picked(i, now),
{
}

/// The scheduler never picks a thread that is inactive, that sleeps beyond
/// the present instant, that waits for a mutex which is still locked, or
/// that joins a thread which is still active.
pub proof fn law_blocked_is_not_picked(v: EnvironmentView, i: int, now: u64)
    requires
        0 <= i < v.threads.len(),
        ({
            let t = v.threads[i];
            ||| !t.active
            ||| v.asleep(i, now)
            ||| t.blocked_by matches ThreadBlock::Mutex(id) && v.mutex_is_locked(id)
            ||| t.blocked_by matches ThreadBlock::Joining(target, _) && v.threads[target as int].active
        }),
    ensures
        !v.picked(i, now),
{
}

/// A thread that waits for a mutex can run as soon as the holder's last
/// unlock has freed it, while a thread that still sleeps cannot: of the two,
/// only the waiter can be picked.
pub proof fn law_freed_mutex_wakes_waiter(
    v: EnvironmentView,
    waiter: int,
    sleeper: int,
    mutex_id: HostMutexId,
    now: u64,
)
    requires
        v.mutexes.contains_key(mutex_id),
        v.mutexes[mutex_id].locked == Some((v.current_thread, 1u32)),
        0 <= waiter < v.threads.len(),
        0 <= sleeper < v.threads.len(),
        v.threads[waiter].active,
        v.threads[waiter].blocked_by == ThreadBlock::Mutex(mutex_id),
        v.asleep(sleeper, now),
    ensures
        !v.eligible(waiter, now),
        v.after_mutex_unlock(mutex_id).eligible(waiter, now),
        !v.after_mutex_unlock(mutex_id).eligible(sleeper, now),
        !v.after_mutex_unlock(mutex_id).picked(sleeper, now),
{
}

/// A thread that waited for a mutex and is picked once the mutex is free
/// becomes the running thread, holds the mutex exactly once, and is no
/// longer counted among the mutex's waiters.
pub proof fn law_woken_waiter_holds_mutex(v: EnvironmentView, waiter: ThreadID, mutex_id: HostMutexId)
    requires
        v.threads_wf(),
        waiter < v.threads.len(),
        v.threads[waiter as int].blocked_by == ThreadBlock::Mutex(mutex_id),
        v.mutexes.contains_key(mutex_id),
        v.mutexes[mutex_id].locked is None,
    ensures
        v.after_schedule(waiter).current_thread == waiter,
        v.after_schedule(waiter).current().blocked_by is NotBlocked,
        v.after_schedule(waiter).mutexes[mutex_id].locked == Some((waiter, 1u32)),
        v.after_schedule(waiter).mutexes[mutex_id].waiting_count == (
        v.mutexes[mutex_id].waiting_count - 1) as u32,
{
}

/// A thread that joins a thread which has already finished can run at once,
/// at whatever instant: it does not have to wait. If it named an address for
/// the return value, waking it hands out that address together with the
/// value the finished thread returned.
pub proof fn law_join_finished_does_not_wait(
    v: EnvironmentView,
    joinee_thread: ThreadID,
    ptr: u32,
    now: u64,
)
    requires
        v.threads_wf(),
        v.current().active,
        joinee_thread < v.threads.len(),
        !v.threads[joinee_thread as int].active,
    ensures
        ({
            let joining = v.with_current(
                Thread { blocked_by: ThreadBlock::Joining(joinee_thread, ptr), ..v.current() },
            );
            &&& joining.eligible(v.current_thread as int, now)
            &&& ptr != 0 ==> joining.join_result(v.current_thread as int) == Some(
                (ptr, v.threads[joinee_thread as int].return_value->0),
            )
            &&& ptr == 0 ==> joining.join_result(v.current_thread as int) is None
        }),
{
}

/// A thread that joins the running thread cannot run while that thread
/// is active, and can run as soon as it has taken its exit trap. If the
/// joiner named an address for the return value, waking it hands out that
/// address together with the value the exiting thread left in its first
/// register.
pub proof fn law_exit_wakes_joiner(v: EnvironmentView, joiner: int, ptr: u32, now: u64)
    requires
        v.threads_wf(),
        v.current().active,
        0 <= joiner < v.threads.len(),
        joiner != v.current_thread,
        v.threads[joiner].active,
        v.threads[joiner].blocked_by == ThreadBlock::Joining(v.current_thread, ptr),
    ensures
        !v.eligible(joiner, now),
        v.after_thread_exit().eligible(joiner, now),
        ptr != 0 ==> v.after_thread_exit().join_result(joiner) == Some((ptr, v.cpu.regs[0])),
{
}

/// A thread that went to sleep at the instant `now` for `duration` ticks
/// cannot run before the clock reads `now + duration`, and can run from then
/// on.
pub proof fn law_sleeper_wakes_at_deadline(v: EnvironmentView, now: u64, duration: u64, t: u64)
    requires
        v.threads_wf(),
        v.current().active,
        now + duration <= u64::MAX,
    ensures
        ({
            let sleeping = v.with_current(
                Thread {
                    blocked_by: ThreadBlock::Sleeping((now + duration) as u64),
                    ..v.current()
                },
            );
            &&& t < now + duration ==> sleeping.asleep(v.current_thread as int, t)
                && !sleeping.eligible(v.current_thread as int, t)
            &&& t >= now + duration ==> sleeping.eligible(v.current_thread as int, t)
        }),
{
}

/// Where every active thread waits for a locked mutex or joins a thread that
/// is still active, no thread can run and none is asleep: the scheduler
/// reports a deadlock.
pub proof fn law_waiting_only_is_deadlock(v: EnvironmentView, now: u64)
    requires
        forall|i: int|
            0 <= i < v.threads.len() && (#[trigger] v.threads[i]).active ==> {
                ||| v.threads[i].blocked_by matches ThreadBlock::Mutex(id) && v.mutex_is_locked(id)
                ||| v.threads[i].blocked_by matches ThreadBlock::Joining(target, _)
                    && v.threads[target as int].active
            },
    ensures
        v.stalled(now),
        v.none_asleep(now),
{
}

} // verus!
