//! The scheduler: which thread runs next.
//!
//! Threads are scanned in round-robin order, starting just after the running
//! thread; the first one that can run is switched in. A thread can run when
//! it is active and not blocked, or when what it waits for has come about.

use vstd::prelude::*;
use crate::environment::mutex::{host_mutex_is_locked, host_mutex_relock_unblocked, HostMutexId};
use crate::environment::{
    lemma_waiters_update, waiters, waits_on, Environment, EnvironmentView, Thread, ThreadBlock,
    ThreadID,
};
use crate::environment::dispatch::TIME_SLICE_CYCLES;
use crate::fault::FatalFault;

verus! {

/// What the scheduler decided.
#[derive(Clone, Copy, Debug, PartialEq, Eq)]
pub enum ScheduleOutcome {
    /// The given thread was switched in and runs next. If it was woken from
    /// joining a finished thread and asked for the return value,
    /// `join_result` holds the guest address to write to and the value to
    /// write there.
    Run { thread: ThreadID, join_result: Option<(u32, u32)> },
    /// No thread can run before the clock reaches `until`, the earliest
    /// deadline among the sleeping threads. Nothing was changed.
    Idle { until: u64 },
}

/// What the main loop reports when it asks which thread to run.
#[derive(Clone, Copy, Debug, PartialEq, Eq)]
pub enum RunLoopEvent {
    /// The loop begins: nothing has run yet.
    Started,
    /// The thread that ran has suspended itself, and the clock reads `now`.
    Suspended { now: u64 },
}

impl EnvironmentView {
    /// The state at the start of a time slice.
    pub open spec fn with_fresh_time_slice(self) -> EnvironmentView {
        EnvironmentView { cycles_remaining: TIME_SLICE_CYCLES, ..self }
    }

    /// Whether the thread `i` can run at the instant `now`.
    pub open spec fn eligible(self, i: int, now: u64) -> bool {
        let t = self.threads[i];
        t.active && match t.blocked_by {
            ThreadBlock::NotBlocked => true,
            ThreadBlock::Sleeping(until) => until <= now,
            ThreadBlock::Mutex(mutex_id) => !self.mutex_is_locked(mutex_id),
            ThreadBlock::Joining(target, _) => !self.threads[target as int].active,
        }
    }

    /// Whether the thread `i` is active and sleeps beyond the instant `now`.
    pub open spec fn asleep(self, i: int, now: u64) -> bool {
        let t = self.threads[i];
        t.active && (t.blocked_by matches ThreadBlock::Sleeping(until) && until > now)
    }

    /// The instant until which the thread `i` sleeps.
    pub open spec fn deadline(self, i: int) -> u64 {
        self.threads[i].blocked_by->Sleeping_0
    }

    /// The place of the thread `i` in the round-robin order: the thread just
    /// after the running one comes first, the running one last.
    pub open spec fn scan_rank(self, i: int) -> int {
        if i > self.current_thread {
            i - self.current_thread - 1
        } else {
            i + self.threads.len() - self.current_thread - 1
        }
    }

    /// Whether `i` is the thread the scheduler picks at the instant `now`:
    /// the first in round-robin order that can run.
    pub open spec fn picked(self, i: int, now: u64) -> bool {
        &&& 0 <= i < self.threads.len()
        &&& self.eligible(i, now)
        &&& forall|j: int|
            0 <= j < self.threads.len() && #[trigger] self.eligible(j, now) ==> self.scan_rank(i)
                <= self.scan_rank(j)
    }

    /// Whether no thread can run at the instant `now`.
    pub open spec fn stalled(self, now: u64) -> bool {
        forall|j: int| 0 <= j < self.threads.len() ==> !#[trigger] self.eligible(j, now)
    }

    /// Whether `until` is the earliest deadline among the threads that are
    /// asleep at the instant `now`.
    pub open spec fn earliest_deadline(self, until: u64, now: u64) -> bool {
        &&& exists|i: int|
            0 <= i < self.threads.len() && #[trigger] self.asleep(i, now) && self.deadline(i)
                == until
        &&& forall|j: int|
            0 <= j < self.threads.len() && #[trigger] self.asleep(j, now) ==> until
                <= self.deadline(j)
    }

    /// Whether no thread is asleep at the instant `now`.
    pub open spec fn none_asleep(self, now: u64) -> bool {
        forall|j: int| 0 <= j < self.threads.len() ==> !#[trigger] self.asleep(j, now)
    }

    /// What has to be written to guest memory when the thread `i` is woken:
    /// if it joins a thread and named an address for the return value, that
    /// address and the value.
    pub open spec fn join_result(self, i: int) -> Option<(u32, u32)> {
        match self.threads[i].blocked_by {
            ThreadBlock::Joining(target, ptr) if ptr != 0 => Some(
                (ptr, self.threads[target as int].return_value->0),
            ),
            _ => None,
        }
    }

    /// The state with the blocking condition of the thread `i` cleared.
    pub open spec fn after_unblock(self, i: int) -> EnvironmentView {
        EnvironmentView {
            threads: self.threads.update(
                i,
                Thread { blocked_by: ThreadBlock::NotBlocked, ..self.threads[i] },
            ),
            ..self
        }
    }

    /// The state after the scheduler picked the thread `i`: its blocking
    /// condition is cleared, it is the running thread, and if it waited for
    /// a mutex it now holds that mutex and no longer counts as a waiter.
    pub open spec fn after_schedule(self, i: ThreadID) -> EnvironmentView {
        let unblocked = self.after_unblock(i as int);
        let switched = if i != self.current_thread {
            unblocked.after_switch(i)
        } else {
            unblocked
        };
        match self.threads[i as int].blocked_by {
            ThreadBlock::Mutex(mutex_id) => switched.after_mutex_relock(mutex_id),
            _ => switched,
        }
    }
}

/// The thread a scan reaches `k` steps after the one that follows the
/// running thread.
spec fn scan_index(v: EnvironmentView, k: int) -> int {
    if v.current_thread + 1 + k < v.threads.len() {
        v.current_thread + 1 + k
    } else {
        v.current_thread + 1 + k - v.threads.len()
    }
}

impl Environment {
    /// Whether the thread `i` can run at the instant `now`.
    fn is_eligible(&self, i: ThreadID, now: u64) -> (eligible: bool)
        requires
            self@.wf(),
            i < self@.threads.len(),
        ensures
            eligible == self@.eligible(i as int, now),
    {
        let candidate = &self.threads[i];
        if !candidate.active {
            return false;
        }
        match candidate.blocked_by {
            ThreadBlock::NotBlocked => true,
            ThreadBlock::Sleeping(sleeping_until) => sleeping_until <= now,
            ThreadBlock::Mutex(mutex_id) => !host_mutex_is_locked(self, mutex_id),
            ThreadBlock::Joining(joinee_thread, _) => {
                !self.threads[joinee_thread].active
            },
        }
    }

    /// Picks the thread that runs next and switches to it.
    ///
    /// `now` is the current reading of the clock that sleep deadlines are
    /// measured on. The threads are scanned in round-robin order from the
    /// one after the running thread, and the first that can run wins. If
    /// none can run but some are asleep, the earliest deadline is reported
    /// and nothing changes; the caller waits until then and asks again. If
    /// none can run and none is asleep, the process has deadlocked.
    pub fn schedule_next_thread(&mut self, now: u64) -> (res: Result<ScheduleOutcome, FatalFault>)
        requires
            old(self)@.wf(),
        ensures
            final(self)@.wf(),
            match res {
                Ok(ScheduleOutcome::Run { thread, join_result }) => {
                    &&& old(self)@.picked(thread as int, now)
                    &&& join_result == old(self)@.join_result(thread as int)
                    &&& final(self)@ == old(self)@.after_schedule(thread)
                },
                Ok(ScheduleOutcome::Idle { until }) => {
                    &&& old(self)@.stalled(now)
                    &&& old(self)@.earliest_deadline(until, now)
                    &&& final(self)@ == old(self)@
                },
                Err(fault) => {
                    &&& fault == FatalFault::Deadlock
                    &&& old(self)@.stalled(now)
                    &&& old(self)@.none_asleep(now)
                    &&& final(self)@ == old(self)@
                },
            },
    {
        let thread_count = self.threads.len();
        // Try to find a thread to run, starting with the one that follows
        // the running thread.
        let mut suitable_thread: Option<ThreadID> = None;
        let mut next_awakening: Option<u64> = None;
        let mut i: usize = if self.current_thread + 1 == thread_count {
            0
        } else {
            self.current_thread + 1
        };
        let mut scanned: usize = 0;
        let ghost mut earliest: int = 0;
        while scanned < thread_count
            invariant_except_break
                scanned <= thread_count,
                suitable_thread is None,
                scanned < thread_count ==> i == scan_index(self@, scanned as int),
                forall|j: int|
                    0 <= j < thread_count && self@.scan_rank(j) < scanned ==> !#[trigger] self@.eligible(
                        j,
                        now,
                    ),
                next_awakening is None ==> forall|j: int|
                    0 <= j < thread_count && self@.scan_rank(j) < scanned ==> !#[trigger] self@.asleep(
                        j,
                        now,
                    ),
                next_awakening matches Some(until) ==> {
                    &&& 0 <= earliest < thread_count
                    &&& self@.asleep(earliest, now)
                    &&& self@.deadline(earliest) == until
                    &&& forall|j: int|
                        0 <= j < thread_count && self@.scan_rank(j) < scanned
                            && #[trigger] self@.asleep(j, now) ==> until <= self@.deadline(j)
                },
            invariant
                self@ == old(self)@,
                self@.wf(),
                thread_count == self@.threads.len(),
            ensures
                suitable_thread matches Some(chosen) ==> self@.picked(chosen as int, now),
                suitable_thread is None ==> self@.stalled(now),
                suitable_thread is None && next_awakening is None ==> self@.none_asleep(now),
                suitable_thread is None ==> (next_awakening matches Some(until)
                    ==> self@.earliest_deadline(until, now)),
            decreases thread_count - scanned,
        {
            if self.is_eligible(i, now) {
                suitable_thread = Some(i);
                break ;
            }
            let candidate = &self.threads[i];
            if candidate.active {
                if let ThreadBlock::Sleeping(sleeping_until) = candidate.blocked_by {
                    next_awakening =
                    match next_awakening {
                        None => {
                            proof {
                                earliest = i as int;
                            }
                            Some(sleeping_until)
                        },
                        Some(other) => {
                            if sleeping_until < other {
                                proof {
                                    earliest = i as int;
                                }
                                Some(sleeping_until)
                            } else {
                                Some(other)
                            }
                        },
                    };
                }
            }
            scanned = scanned + 1;
            i = if i + 1 == thread_count {
                0
            } else {
                i + 1
            };
        }

        if let Some(suitable_thread) = suitable_thread {
            // There's a thread we can switch to immediately.
            let mut woken = self.threads[suitable_thread];
            let blocked_by = woken.blocked_by;
            let join_result = match blocked_by {
                ThreadBlock::Joining(joinee_thread, ptr) => {
                    // The return value is handed out unless the address to
                    // write it to is null.
                    if ptr != 0 {
                        Some((ptr, self.threads[joinee_thread].return_value.unwrap()))
                    } else {
                        None
                    }
                },
                _ => None,
            };
            woken.blocked_by = ThreadBlock::NotBlocked;
            self.threads[suitable_thread] = woken;
            proof {
                lemma_unblock_keeps_wf(old(self)@, suitable_thread as int);
            }
            if suitable_thread != self.current_thread {
                proof {
                    lemma_switch_keeps_wf(self@, suitable_thread);
                }
                self.switch_thread(suitable_thread);
            }
            if let ThreadBlock::Mutex(mutex_id) = blocked_by {
                proof {
                    lemma_woken_can_relock(old(self)@, suitable_thread, mutex_id, now);
                }
                host_mutex_relock_unblocked(self, mutex_id);
            }
            Ok(ScheduleOutcome::Run { thread: suitable_thread, join_result })
        } else if let Some(next_awakening) = next_awakening {
            // All threads that could run are blocked and at least one is
            // asleep: the caller waits until it wakes up.
            Ok(ScheduleOutcome::Idle { until: next_awakening })
        } else {
            Err(FatalFault::Deadlock)
        }
    }
}

impl Environment {
    /// One turn of the main loop: decides which thread runs for the next
    /// time slice.
    ///
    /// When the loop begins, the running thread runs. After a thread has
    /// suspended itself, the scheduler picks the next one. The thread that
    /// is to run gets a fresh budget of instructions. Where no thread can
    /// run before a sleeper's deadline, the caller waits and reports the
    /// suspension again with the new reading of the clock.
    pub fn run(&mut self, event: RunLoopEvent) -> (res: Result<ScheduleOutcome, FatalFault>)
        requires
            old(self)@.wf(),
        ensures
            final(self)@.wf(),
            match event {
                RunLoopEvent::Started => {
                    &&& res == Ok::<ScheduleOutcome, FatalFault>(
                        ScheduleOutcome::Run {
                            thread: old(self)@.current_thread,
                            join_result: None,
                        },
                    )
                    &&& final(self)@ == old(self)@.with_fresh_time_slice()
                },
                RunLoopEvent::Suspended { now } => match res {
                    Ok(ScheduleOutcome::Run { thread, join_result }) => {
                        &&& old(self)@.picked(thread as int, now)
                        &&& join_result == old(self)@.join_result(thread as int)
                        &&& final(self)@ == old(self)@.after_schedule(
                            thread,
                        ).with_fresh_time_slice()
                    },
                    Ok(ScheduleOutcome::Idle { until }) => {
                        &&& old(self)@.stalled(now)
                        &&& old(self)@.earliest_deadline(until, now)
                        &&& final(self)@ == old(self)@
                    },
                    Err(fault) => {
                        &&& fault == FatalFault::Deadlock
                        &&& old(self)@.stalled(now)
                        &&& old(self)@.none_asleep(now)
                        &&& final(self)@ == old(self)@
                    },
                },
            },
    {
        match event {
            RunLoopEvent::Started => {
                self.begin_time_slice();
                Ok(ScheduleOutcome::Run { thread: self.current_thread, join_result: None })
            },
            RunLoopEvent::Suspended { now } => {
                let outcome = self.schedule_next_thread(now);
                if let Ok(ScheduleOutcome::Run { .. }) = outcome {
                    self.begin_time_slice();
                }
                outcome
            },
        }
    }
}

/// Clearing a thread's blocking condition keeps the state well-formed.
proof fn lemma_unblock_keeps_wf(v: EnvironmentView, i: int)
    requires
        v.wf(),
        0 <= i < v.threads.len(),
    ensures
        v.after_unblock(i).wf(),
{
    let w = v.after_unblock(i);
    assert forall|id: HostMutexId| #[trigger] w.mutexes.contains_key(id) implies id < w.mutex_count
        && w.mutexes[id].wf() && waiters(w.threads, id) <= w.mutexes[id].waiting_count by {
        lemma_waiters_update(v.threads, i, w.threads[i], id);
    }
}

/// Handing the CPU to another thread keeps the state well-formed and does
/// not change who waits for which mutex.
pub(crate) proof fn lemma_switch_keeps_wf(v: EnvironmentView, new_thread: ThreadID)
    requires
        v.wf(),
        new_thread < v.threads.len(),
        new_thread != v.current_thread,
    ensures
        v.after_switch(new_thread).wf(),
        forall|id: HostMutexId|
            waiters(#[trigger] v.after_switch(new_thread).threads, id) == waiters(v.threads, id),
{
    let w = v.after_switch(new_thread);
    let mid = v.threads.update(
        new_thread as int,
        Thread { cpu_context: None, ..v.threads[new_thread as int] },
    );
    assert forall|id: HostMutexId| waiters(w.threads, id) == waiters(v.threads, id) by {
        lemma_waiters_update(v.threads, new_thread as int, mid[new_thread as int], id);
        lemma_waiters_update(mid, v.current_thread as int, w.threads[v.current_thread as int], id);
    }
    assert forall|j: int, id: HostMutexId|
        0 <= j < w.threads.len() && #[trigger] waits_on(w.threads[j], id) implies w.mutexes.contains_key(
        id,
    ) by {
        assert(waits_on(v.threads[j], id));
    }
}

/// A thread that was picked while it waited for a mutex can re-lock that
/// mutex once it has been unblocked and switched in.
proof fn lemma_woken_can_relock(v: EnvironmentView, i: ThreadID, mutex_id: HostMutexId, now: u64)
    requires
        v.wf(),
        i < v.threads.len(),
        v.eligible(i as int, now),
        v.threads[i as int].blocked_by == ThreadBlock::Mutex(mutex_id),
    ensures
        i != v.current_thread ==> v.after_unblock(i as int).after_switch(i).can_relock(mutex_id),
        i == v.current_thread ==> v.after_unblock(i as int).can_relock(mutex_id),
{
    let u = v.after_unblock(i as int);
    lemma_waiters_update(v.threads, i as int, u.threads[i as int], mutex_id);
    lemma_unblock_keeps_wf(v, i as int);
    if i != v.current_thread {
        lemma_switch_keeps_wf(u, i);
    }
}

} // verus!
