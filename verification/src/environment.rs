//! The execution engine's state: the thread table, the live register state
//! and the mutex table, with the operations that create threads, block them
//! and hand the CPU from one to the other.

use vstd::prelude::*;
use crate::cpu::{CpuContext, GuestFunction, CPSR_USER_MODE, SP};
use crate::environment::mutex::{HostMutexId, MutexHostObject, MutexState};

pub mod dispatch;
pub mod laws;
pub mod mutex;
pub mod scheduler;
pub mod trace;

verus! {

/// Index into the thread table. Thread 0 is always the main thread.
pub type ThreadID = usize;

/// If and by what a thread is kept from running.
#[derive(Clone, Copy, Debug, PartialEq, Eq, Structural)]
pub enum ThreadBlock {
    /// The thread is not blocked.
    NotBlocked,
    /// The thread sleeps until the clock reaches the given instant.
    Sleeping(u64),
    /// The thread waits for the mutex with the given id to be unlocked.
    Mutex(HostMutexId),
    /// The thread waits for the given thread to finish. The second field is
    /// the guest address that receives the finished thread's return value,
    /// or zero if nobody wants it.
    Joining(ThreadID, u32),
}

/// Bookkeeping for one guest thread.
#[derive(Clone, Copy, Debug)]
pub struct Thread {
    /// Cleared once the thread has finished.
    pub active: bool,
    /// The condition the thread waits for, if any.
    pub blocked_by: ThreadBlock,
    /// Set while the thread runs the routine it was created with and has not
    /// yet reached its exit trap.
    pub in_start_routine: bool,
    /// The value a finished secondary thread returned.
    pub return_value: Option<u32>,
    /// Set while the top of the thread's logical call stack is a host
    /// routine.
    pub in_host_function: bool,
    /// The thread's registers while it is not the running thread. The
    /// running thread's registers live in the CPU and this field is `None`.
    pub cpu_context: Option<CpuContext>,
    /// Lowest and highest address of the thread's stack, until it is freed.
    pub stack: Option<(u32, u32)>,
}

impl Thread {
    /// Whether a blocking condition is set.
    pub open spec fn spec_is_blocked(&self) -> bool {
        !(self.blocked_by is NotBlocked)
    }

    /// Whether a blocking condition is set.
    #[verifier::when_used_as_spec(spec_is_blocked)]
    pub fn is_blocked(&self) -> (blocked: bool)
        ensures
            blocked == self.spec_is_blocked(),
    {
        !matches!(self.blocked_by, ThreadBlock::NotBlocked)
    }

    /// Whether the record respects the lifecycle rules of the thread at
    /// index `id` in a table of `len` threads.
    pub open spec fn wf(&self, id: int, len: int) -> bool {
        &&& self.in_start_routine ==> id != 0 && self.active
        &&& self.active ==> self.stack is Some
        &&& !self.active ==> self.stack is None && self.return_value is Some
        &&& self.blocked_by matches ThreadBlock::Joining(target, _) ==> target < len
    }
}

/// The mathematical value of an [`Environment`].
pub struct EnvironmentView {
    /// The registers of the running thread.
    pub cpu: CpuContext,
    /// Instructions the running thread may still execute in this time slice.
    pub cycles_remaining: u64,
    /// Index of the running thread.
    pub current_thread: ThreadID,
    /// The thread table.
    pub threads: Seq<Thread>,
    /// The mutex table.
    pub mutexes: Map<HostMutexId, MutexHostObject>,
    /// The id the next mutex will get.
    pub mutex_count: u64,
    /// Return address that marks the end of a thread's start routine.
    pub thread_exit_routine: GuestFunction,
    /// Return address that marks the end of a host-to-guest call.
    pub return_to_host_routine: GuestFunction,
    /// Whether a debugger is attached.
    pub debugger_attached: bool,
}

/// Whether `t` waits for the mutex `id`.
pub open spec fn waits_on(t: Thread, id: HostMutexId) -> bool {
    t.blocked_by == ThreadBlock::Mutex(id)
}

/// Number of threads in `threads` that wait for the mutex `id`.
pub open spec fn waiters(threads: Seq<Thread>, id: HostMutexId) -> nat
    decreases threads.len(),
{
    if threads.len() == 0 {
        0
    } else {
        waiters(threads.drop_last(), id) + if waits_on(threads.last(), id) {
            1nat
        } else {
            0nat
        }
    }
}

impl EnvironmentView {
    /// The thread table obeys the lifecycle rules: the main thread exists
    /// and is active, the running thread is the only one without a saved
    /// context, and every record is well-formed.
    pub open spec fn threads_wf(self) -> bool {
        &&& self.threads.len() >= 1
        &&& self.current_thread < self.threads.len()
        &&& self.threads[0].active
        &&& forall|i: int|
            0 <= i < self.threads.len() ==> ((#[trigger] self.threads[i]).cpu_context is None
                <==> i == self.current_thread)
        &&& forall|i: int|
            0 <= i < self.threads.len() ==> (#[trigger] self.threads[i]).wf(
                i,
                self.threads.len() as int,
            )
    }

    /// The mutex table is consistent with itself and with the thread table:
    /// ids are below the counter, every record is well-formed, a thread only
    /// waits for a mutex that exists, and a mutex counts at least as many
    /// waiters as there are threads waiting for it.
    pub open spec fn mutexes_wf(self) -> bool {
        &&& self.mutexes.dom().finite()
        &&& forall|id: HostMutexId| #[trigger]
            self.mutexes.contains_key(id) ==> id < self.mutex_count && self.mutexes[id].wf()
                && waiters(self.threads, id) <= self.mutexes[id].waiting_count
        &&& forall|i: int, id: HostMutexId|
            0 <= i < self.threads.len() && #[trigger] waits_on(self.threads[i], id)
                ==> self.mutexes.contains_key(id)
    }

    /// The invariant of the engine's state.
    pub open spec fn wf(self) -> bool {
        self.threads_wf() && self.mutexes_wf()
    }

    /// The state after the CPU was handed from the running thread to
    /// `new_thread`: the running thread's registers are saved in its record,
    /// and the registers saved for `new_thread` become the live ones.
    pub open spec fn after_switch(self, new_thread: ThreadID) -> EnvironmentView {
        EnvironmentView {
            cpu: self.threads[new_thread as int].cpu_context->0,
            current_thread: new_thread,
            threads: self.threads.update(
                new_thread as int,
                Thread { cpu_context: None, ..self.threads[new_thread as int] },
            ).update(
                self.current_thread as int,
                Thread { cpu_context: Some(self.cpu), ..self.current() },
            ),
            ..self
        }
    }

    /// The record of a thread that was just created to run `start_routine`
    /// on `user_data`, with `stack_size` bytes of stack at `stack_alloc`:
    /// its stack pointer is at the top of the stack, its first argument
    /// register holds `user_data`, and it returns to the thread-exit
    /// trampoline.
    pub open spec fn created_thread(
        self,
        start_routine: GuestFunction,
        user_data: u32,
        stack_alloc: u32,
        stack_size: u32,
    ) -> Thread {
        let stack_high_addr = (stack_alloc + stack_size) as u32;
        let blank = Environment::zeroed();
        let regs = vstd::array::spec_array_update(
            vstd::array::spec_array_update(blank.regs, SP as int, stack_high_addr),
            0,
            user_data,
        );
        Thread {
            active: true,
            blocked_by: ThreadBlock::NotBlocked,
            return_value: None,
            in_start_routine: true,
            in_host_function: false,
            cpu_context: Some(
                (CpuContext { regs, cpsr: CPSR_USER_MODE, ..blank }).after_branch_with_link(
                    start_routine,
                    self.thread_exit_routine,
                ),
            ),
            stack: Some((stack_alloc, (stack_high_addr - 1) as u32)),
        }
    }

    /// The running thread's record.
    pub open spec fn current(self) -> Thread {
        self.threads[self.current_thread as int]
    }

    /// The state with the running thread's record replaced.
    pub open spec fn with_current(self, t: Thread) -> EnvironmentView {
        EnvironmentView { threads: self.threads.update(self.current_thread as int, t), ..self }
    }
}

/// The whole state of the execution engine.
pub struct Environment {
    /// The registers of the running thread.
    pub cpu: CpuContext,
    /// Instructions the running thread may still execute in this time slice.
    pub cycles_remaining: u64,
    current_thread: ThreadID,
    threads: Vec<Thread>,
    mutex_state: MutexState,
    thread_exit_routine: GuestFunction,
    return_to_host_routine: GuestFunction,
    debugger_attached: bool,
}

impl View for Environment {
    type V = EnvironmentView;

    closed spec fn view(&self) -> EnvironmentView {
        EnvironmentView {
            cpu: self.cpu,
            cycles_remaining: self.cycles_remaining,
            current_thread: self.current_thread,
            threads: self.threads@,
            mutexes: self.mutex_state.table(),
            mutex_count: self.mutex_state.count(),
            thread_exit_routine: self.thread_exit_routine,
            return_to_host_routine: self.return_to_host_routine,
            debugger_attached: self.debugger_attached,
        }
    }
}

/// Changing one record changes the number of waiters by what the record
/// itself contributes.
pub proof fn lemma_waiters_update(threads: Seq<Thread>, i: int, t: Thread, id: HostMutexId)
    requires
        0 <= i < threads.len(),
    ensures
        waiters(threads.update(i, t), id) + (if waits_on(threads[i], id) {
            1nat
        } else {
            0nat
        }) == waiters(threads, id) + (if waits_on(t, id) {
            1nat
        } else {
            0nat
        }),
    decreases threads.len(),
{
    if i == threads.len() - 1 {
        assert(threads.update(i, t).drop_last() =~= threads.drop_last());
    } else {
        assert(threads.update(i, t).drop_last() =~= threads.drop_last().update(i, t));
        lemma_waiters_update(threads.drop_last(), i, t, id);
    }
}

/// A new record adds what it contributes to the number of waiters.
pub proof fn lemma_waiters_push(threads: Seq<Thread>, t: Thread, id: HostMutexId)
    ensures
        waiters(threads.push(t), id) == waiters(threads, id) + (if waits_on(t, id) {
            1nat
        } else {
            0nat
        }),
{
    assert(threads.push(t).drop_last() =~= threads);
}

/// A thread that waits for a mutex is counted among its waiters.
pub proof fn lemma_waiter_counted(threads: Seq<Thread>, i: int, id: HostMutexId)
    requires
        0 <= i < threads.len(),
        waits_on(threads[i], id),
    ensures
        waiters(threads, id) >= 1,
    decreases threads.len(),
{
    if i < threads.len() - 1 {
        lemma_waiter_counted(threads.drop_last(), i, id);
    }
}

/// Where no thread waits for a mutex, its number of waiters is zero.
pub proof fn lemma_no_waiters(threads: Seq<Thread>, id: HostMutexId)
    requires
        forall|i: int| 0 <= i < threads.len() ==> !waits_on(#[trigger] threads[i], id),
    ensures
        waiters(threads, id) == 0,
    decreases threads.len(),
{
    if threads.len() > 0 {
        lemma_no_waiters(threads.drop_last(), id);
    }
}

/// Replacing the blocking condition of the running thread by one that is not
/// a wait for a mutex keeps the state well-formed.
proof fn lemma_block_keeps_wf(v: EnvironmentView, t: Thread)
    requires
        v.wf(),
        t == (Thread { blocked_by: t.blocked_by, ..v.current() }),
        !(t.blocked_by is Mutex),
        t.blocked_by matches ThreadBlock::Joining(target, _) ==> target < v.threads.len(),
    ensures
        v.with_current(t).wf(),
{
    let w = v.with_current(t);
    let cur = v.current_thread as int;
    assert forall|id: HostMutexId| #[trigger] w.mutexes.contains_key(id) implies id < w.mutex_count
        && w.mutexes[id].wf() && waiters(w.threads, id) <= w.mutexes[id].waiting_count by {
        lemma_waiters_update(v.threads, cur, t, id);
    }
}

/// Appending the record of a newly created thread keeps the state
/// well-formed.
proof fn lemma_new_thread_keeps_wf(v: EnvironmentView, t: Thread)
    requires
        v.wf(),
        t.active,
        t.blocked_by is NotBlocked,
        t.cpu_context is Some,
        t.stack is Some,
    ensures
        (EnvironmentView { threads: v.threads.push(t), ..v }).wf(),
{
    let w = EnvironmentView { threads: v.threads.push(t), ..v };
    assert forall|id: HostMutexId| #[trigger] w.mutexes.contains_key(id) implies id < w.mutex_count
        && w.mutexes[id].wf() && waiters(w.threads, id) <= w.mutexes[id].waiting_count by {
        lemma_waiters_push(v.threads, t, id);
    }
}

impl Environment {
    /// Sets up the engine for a process whose main thread starts at
    /// `entry_point` in user mode, with the given stack bounds. The two
    /// trampolines are the return addresses by which the end of a thread's
    /// start routine and the end of a host-to-guest call are recognised.
    pub fn new(
        entry_point: GuestFunction,
        main_stack: (u32, u32),
        thread_exit_routine: GuestFunction,
        return_to_host_routine: GuestFunction,
        debugger_attached: bool,
    ) -> (env: Environment)
        ensures
            env@.wf(),
            env@.current_thread == 0,
            env@.threads == seq![Environment::main_thread(main_stack)],
            env@.mutexes == Map::<HostMutexId, MutexHostObject>::empty(),
            env@.mutex_count == 0,
            env@.cycles_remaining == u64::MAX,
            env@.cpu == (CpuContext { cpsr: CPSR_USER_MODE, ..Environment::zeroed() }).after_branch(
                entry_point,
            ),
            env@.thread_exit_routine == thread_exit_routine,
            env@.return_to_host_routine == return_to_host_routine,
            env@.debugger_attached == debugger_attached,
    {
        let main_thread = Thread {
            active: true,
            blocked_by: ThreadBlock::NotBlocked,
            return_value: None,
            in_start_routine: false,
            in_host_function: false,
            cpu_context: None,
            stack: Some(main_stack),
        };
        let mut cpu = CpuContext::new();
        proof {
            assert(cpu.regs =~= Environment::zeroed().regs);
            assert(cpu.extregs =~= Environment::zeroed().extregs);
        }
        cpu.set_cpsr(CPSR_USER_MODE);
        cpu.branch(entry_point);
        let env = Environment {
            cpu,
            cycles_remaining: u64::MAX,
            current_thread: 0,
            threads: vec![main_thread],
            mutex_state: MutexState::default(),
            thread_exit_routine,
            return_to_host_routine,
            debugger_attached,
        };
        env
    }

    /// The record the main thread starts with.
    pub open spec fn main_thread(main_stack: (u32, u32)) -> Thread {
        Thread {
            active: true,
            blocked_by: ThreadBlock::NotBlocked,
            return_value: None,
            in_start_routine: false,
            in_host_function: false,
            cpu_context: None,
            stack: Some(main_stack),
        }
    }

    /// The register state in which every register is zero.
    pub open spec fn zeroed() -> CpuContext {
        CpuContext {
            regs: vstd::array::spec_array_fill_for_copy_type::<u32, 16>(0u32),
            cpsr: 0,
            extregs: vstd::array::spec_array_fill_for_copy_type::<u32, 64>(0u32),
            fpscr: 0,
        }
    }

    /// Index of the running thread.
    pub fn current_thread_id(&self) -> (id: ThreadID)
        ensures
            id == self@.current_thread,
    {
        self.current_thread
    }

    /// Number of threads ever created, the main thread included.
    pub fn thread_count(&self) -> (count: usize)
        ensures
            count == self@.threads.len(),
    {
        self.threads.len()
    }

    /// The record of the thread `id`.
    pub fn thread(&self, id: ThreadID) -> (thread: &Thread)
        requires
            id < self@.threads.len(),
        ensures
            *thread == self@.threads[id as int],
    {
        &self.threads[id]
    }

    /// The return address that marks the end of a thread's start routine.
    pub fn thread_exit_routine(&self) -> (routine: GuestFunction)
        ensures
            routine == self@.thread_exit_routine,
    {
        self.thread_exit_routine
    }

    /// The return address that marks the end of a host-to-guest call.
    pub fn return_to_host_routine(&self) -> (routine: GuestFunction)
        ensures
            routine == self@.return_to_host_routine,
    {
        self.return_to_host_routine
    }

    /// Whether a debugger is attached.
    pub fn debugger_attached(&self) -> (attached: bool)
        ensures
            attached == self@.debugger_attached,
    {
        self.debugger_attached
    }

    /// Records that a debugger was attached or detached.
    pub fn set_debugger_attached(&mut self, attached: bool)
        ensures
            final(self)@ == (EnvironmentView { debugger_attached: attached, ..old(self)@ }),
    {
        self.debugger_attached = attached;
    }

    /// Hands the CPU from the running thread to `new_thread`.
    pub(crate) fn switch_thread(&mut self, new_thread: ThreadID)
        requires
            old(self)@.threads_wf(),
            new_thread < old(self)@.threads.len(),
            new_thread != old(self)@.current_thread,
        ensures
            final(self)@ == old(self)@.after_switch(new_thread),
    {
        let mut incoming = self.threads[new_thread];
        let context = incoming.cpu_context.unwrap();
        incoming.cpu_context = None;
        self.threads[new_thread] = incoming;
        let mut outgoing = self.threads[self.current_thread];
        outgoing.cpu_context = Some(self.cpu);
        self.threads[self.current_thread] = outgoing;
        self.cpu = context;
        self.current_thread = new_thread;
    }

    /// Creates a thread that will run `start_routine` with `user_data` as
    /// its argument, on the `stack_size` bytes of stack that were allocated
    /// for it at `stack_alloc`, and returns its id. The running thread and
    /// its registers stay as they are.
    pub fn new_thread(
        &mut self,
        start_routine: GuestFunction,
        user_data: u32,
        stack_alloc: u32,
        stack_size: u32,
    ) -> (new_thread_id: ThreadID)
        requires
            old(self)@.wf(),
            old(self)@.threads.len() < usize::MAX,
            stack_size >= 1,
            stack_alloc + stack_size <= u32::MAX,
            (stack_alloc + stack_size) % 4 == 0,
        ensures
            new_thread_id == old(self)@.threads.len(),
            final(self)@ == (EnvironmentView {
                threads: old(self)@.threads.push(
                    old(self)@.created_thread(start_routine, user_data, stack_alloc, stack_size),
                ),
                ..old(self)@
            }),
            final(self)@.wf(),
    {
        let stack_high_addr = stack_alloc + stack_size;
        self.threads.push(
            Thread {
                active: true,
                blocked_by: ThreadBlock::NotBlocked,
                return_value: None,
                in_start_routine: true,
                in_host_function: false,
                cpu_context: Some(CpuContext::new()),
                stack: Some((stack_alloc, stack_high_addr - 1)),
            },
        );
        let new_thread_id = self.threads.len() - 1;
        let old_thread = self.current_thread;
        proof {
            let blank = self.threads[new_thread_id as int].cpu_context->0;
            assert(blank.extregs =~= Environment::zeroed().extregs);
        }

        // The registers of the new thread can only be set up while it is the
        // running thread, so switch to it and back.
        self.switch_thread(new_thread_id);
        self.cpu.set_cpsr(CPSR_USER_MODE);
        self.cpu.regs[SP] = stack_high_addr;
        self.cpu.regs[0] = user_data;
        self.cpu.branch_with_link(start_routine, self.thread_exit_routine);
        self.switch_thread(old_thread);

        proof {
            let created = old(self)@.created_thread(
                start_routine,
                user_data,
                stack_alloc,
                stack_size,
            );
            let expected = EnvironmentView {
                threads: old(self)@.threads.push(created),
                ..old(self)@
            };
            assert(self@.threads[new_thread_id as int].cpu_context->0.regs
                =~= created.cpu_context->0.regs);
            assert(self@.threads =~= expected.threads);
            lemma_new_thread_keeps_wf(old(self)@, created);
        }
        new_thread_id
    }

    /// Puts the running thread to sleep for `duration` ticks of the clock,
    /// which now shows `now`. The thread stops running at its next
    /// suspension point and is not chosen again before the clock has reached
    /// `now + duration`.
    pub fn sleep(&mut self, now: u64, duration: u64)
        requires
            old(self)@.wf(),
            old(self)@.current().blocked_by is NotBlocked,
            now + duration <= u64::MAX,
        ensures
            final(self)@ == old(self)@.with_current(
                Thread {
                    blocked_by: ThreadBlock::Sleeping((now + duration) as u64),
                    ..old(self)@.current()
                },
            ),
            final(self)@.wf(),
    {
        let until = now + duration;
        let mut thread = self.threads[self.current_thread];
        thread.blocked_by = ThreadBlock::Sleeping(until);
        self.threads[self.current_thread] = thread;
        proof {
            lemma_block_keeps_wf(old(self)@, thread);
        }
    }

    /// Blocks the running thread until the thread `joinee_thread` has
    /// finished. When it has, the scheduler hands out its return value to be
    /// written to the guest address `ptr`, unless `ptr` is zero.
    pub fn join_with_thread(&mut self, joinee_thread: ThreadID, ptr: u32)
        requires
            old(self)@.wf(),
            old(self)@.current().blocked_by is NotBlocked,
            joinee_thread < old(self)@.threads.len(),
        ensures
            final(self)@ == old(self)@.with_current(
                Thread {
                    blocked_by: ThreadBlock::Joining(joinee_thread, ptr),
                    ..old(self)@.current()
                },
            ),
            final(self)@.wf(),
    {
        let mut thread = self.threads[self.current_thread];
        thread.blocked_by = ThreadBlock::Joining(joinee_thread, ptr);
        self.threads[self.current_thread] = thread;
        proof {
            lemma_block_keeps_wf(old(self)@, thread);
        }
    }

    /// Blocks the running thread until the mutex `mutex_id` is unlocked.
    /// The thread stops running at its next suspension point; other threads
    /// that wait for the same mutex may get it first.
    ///
    /// The mutex must already count the thread among its waiters, as it does
    /// when this is called on behalf of a lock that found the mutex taken.
    pub fn block_on_mutex(&mut self, mutex_id: HostMutexId)
        requires
            old(self)@.wf(),
            old(self)@.current().blocked_by is NotBlocked,
            old(self)@.mutexes.contains_key(mutex_id),
            waiters(old(self)@.threads, mutex_id) < old(self)@.mutexes[mutex_id].waiting_count,
        ensures
            final(self)@ == old(self)@.with_current(
                Thread { blocked_by: ThreadBlock::Mutex(mutex_id), ..old(self)@.current() },
            ),
            final(self)@.wf(),
    {
        let mut thread = self.threads[self.current_thread];
        thread.blocked_by = ThreadBlock::Mutex(mutex_id);
        self.threads[self.current_thread] = thread;
        proof {
            let v = old(self)@;
            let w = self@;
            let cur = v.current_thread as int;
            assert forall|id: HostMutexId| #[trigger] w.mutexes.contains_key(id) implies id
                < w.mutex_count && w.mutexes[id].wf() && waiters(w.threads, id)
                <= w.mutexes[id].waiting_count by {
                lemma_waiters_update(v.threads, cur, thread, id);
            }
        }
    }

    /// The record of the mutex `mutex_id`, if it exists.
    pub fn mutex(&self, mutex_id: HostMutexId) -> (host_object: Option<MutexHostObject>)
        ensures
            host_object == if self@.mutexes.contains_key(mutex_id) {
                Some(self@.mutexes[mutex_id])
            } else {
                None
            },
    {
        self.mutex_state.lookup(mutex_id)
    }
}

} // verus!
