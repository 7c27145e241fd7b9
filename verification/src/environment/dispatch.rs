//! The supervisor-call dispatcher and the run loop's decisions.
//!
//! Running the CPU, resolving and invoking host routines, waiting for a
//! debugger and waiting for time to pass are the caller's part. What to do
//! before and after each of them is decided here, from the engine's state
//! and the event that came back.

use vstd::prelude::*;
use crate::cpu::{CpuContext, CpuError, CpuState, GuestFunction, LR, PC};
use crate::environment::{
    lemma_waiters_update, waiters, waits_on, Environment, EnvironmentView, Thread, ThreadID,
};
use crate::environment::mutex::HostMutexId;
use crate::fault::FatalFault;

verus! {

/// Supervisor-call number of the lazy linker.
pub const SVC_LAZY_LINK: u32 = 0;

/// Supervisor-call number of the return-to-host trampoline.
pub const SVC_RETURN_TO_HOST: u32 = 1;

/// Supervisor-call number of the thread-exit trampoline.
pub const SVC_THREAD_EXIT: u32 = 2;

/// First of the supervisor-call numbers that stand for linked host
/// functions.
pub const SVC_LINKED_FUNCTIONS_BASE: u32 = 3;

/// Number of instructions a thread may execute before the scheduler is asked
/// again.
pub const TIME_SLICE_CYCLES: u64 = 100_000;

/// What to do next with the running thread after a trap.
#[derive(Clone, Copy, Debug, PartialEq, Eq)]
pub enum ThreadNextAction {
    /// Continue CPU emulation.
    Continue,
    /// The host-to-guest call is over: return to the host code that made it.
    ReturnToHost,
    /// Let the debugger look at the CPU error.
    DebugCpuError(CpuError),
    /// The thread has finished. Its stack, which began at `stack`, is to be
    /// freed, and the scheduler picks another thread; this one never runs
    /// again.
    ThreadExited { stack: u32 },
    /// The guest called a host function: look up the handler for `svc`,
    /// trapped at `svc_pc`, and invoke it.
    CallHostFunction { svc: u32, svc_pc: u32 },
}

/// What the run loop does next with the running thread.
#[derive(Clone, Copy, Debug, PartialEq, Eq)]
pub enum RunAction {
    /// Run the CPU: for at most `budget` instructions, or for a single one
    /// if there is no budget.
    RunCpu { budget: Option<u64> },
    /// The time slice is used up: suspend the thread and ask the scheduler.
    Yield,
    /// The host-to-guest call is over: leave the run segment.
    ReturnToHost,
    /// The thread has finished: free its stack, which began at `stack`, and
    /// ask the scheduler. The thread must never be resumed.
    ThreadExited { stack: u32 },
    /// Look up the handler of the host function that the trap at `svc_pc`
    /// called with the number `svc`.
    ResolveHandler { svc: u32, svc_pc: u32 },
    /// Invoke the handler that was found for the trap at `svc_pc`, and
    /// report back with `was_in_host_function` when it is done.
    InvokeHandler { svc_pc: u32, was_in_host_function: bool },
    /// Hand control to the debugger: because of the given CPU error, or
    /// after a single step if there is none.
    WaitForDebugger { error: Option<CpuError> },
}

/// What the call of a guest function from host code has to put back when
/// the function has returned.
#[derive(Clone, Copy, Debug, PartialEq, Eq)]
pub struct GuestCall {
    /// The thread and its host-routine mark.
    pub call: RunCall,
    /// Where the thread was executing.
    pub old_pc: GuestFunction,
    /// The thread's link register.
    pub old_lr: u32,
}

/// What happened since the run loop was last told what to do.
#[derive(Clone, Copy, Debug, PartialEq, Eq)]
pub enum RunEvent {
    /// The run segment begins, or the thread runs again after it yielded.
    Resumed,
    /// The CPU ran and stopped in the given state.
    CpuStopped(CpuState),
    /// The handler for the trap at `svc_pc` was looked up.
    HandlerResolved { svc_pc: u32, found: bool },
    /// The handler that was invoked for the trap at `svc_pc` is done.
    HandlerReturned { svc_pc: u32, was_in_host_function: bool },
    /// The debugger handed control back. It answers `true` to execute a
    /// single instruction and be asked again, and `false` to resume normal
    /// execution.
    DebuggerAnswered(bool),
}

/// One run of a thread's instruction stream: from the point where the run
/// loop is entered to the thread's return to the host.
#[derive(Clone, Copy, Debug, PartialEq, Eq)]
pub struct RunSegment {
    /// The thread on which the segment was entered.
    pub initial_thread: ThreadID,
    /// Whether the debugger asked for single steps.
    pub step_and_debug: bool,
}

/// What a host-to-guest call has to put back when it is over.
#[derive(Clone, Copy, Debug, PartialEq, Eq)]
pub struct RunCall {
    /// The thread that made the call.
    pub thread: ThreadID,
    /// Whether that thread was inside a host routine when it made the call.
    pub was_in_host_function: bool,
}

impl EnvironmentView {
    /// The lowest address of the running thread's stack.
    pub open spec fn stack_base(self) -> u32 {
        let bounds = self.current().stack->0;
        bounds.0
    }

    /// The address of the trap instruction the CPU has just executed.
    pub open spec fn svc_pc(self) -> u32 {
        (self.cpu.regs[PC as int] - 4) as u32
    }

    /// What the dispatcher answers to a trap.
    pub open spec fn trap_result(self, state: CpuState, initial_thread: ThreadID) -> Result<
        ThreadNextAction,
        FatalFault,
    > {
        match state {
            CpuState::Normal => Ok(ThreadNextAction::Continue),
            CpuState::Error(e) => Ok(ThreadNextAction::DebugCpuError(e)),
            CpuState::Svc(svc) => if svc == SVC_THREAD_EXIT {
                if self.svc_pc() != self.thread_exit_routine.spec_addr_without_thumb_bit() {
                    Err(FatalFault::UnexpectedTrapAddress)
                } else if !self.current().in_start_routine {
                    Err(FatalFault::NonExitingThreadExited)
                } else {
                    Ok(ThreadNextAction::ThreadExited { stack: self.stack_base() })
                }
            } else if svc == SVC_RETURN_TO_HOST {
                if self.svc_pc() != self.return_to_host_routine.spec_addr_without_thumb_bit() {
                    Err(FatalFault::UnexpectedTrapAddress)
                } else if self.current_thread != initial_thread {
                    Err(FatalFault::ReturnToHostOnWrongThread)
                } else {
                    Ok(ThreadNextAction::ReturnToHost)
                }
            } else {
                Ok(ThreadNextAction::CallHostFunction { svc, svc_pc: self.svc_pc() })
            },
        }
    }

    /// The state after the running thread took its exit trap: the thread is
    /// inactive, holds the value it returned, and has given up its stack.
    pub open spec fn after_thread_exit(self) -> EnvironmentView {
        self.with_current(
            Thread {
                active: false,
                in_start_routine: false,
                return_value: Some(self.cpu.regs[0]),
                stack: None,
                ..self.current()
            },
        )
    }

    /// The state after the dispatcher handled a trap: changed only where a
    /// thread exited.
    pub open spec fn after_trap(self, state: CpuState, initial_thread: ThreadID) -> EnvironmentView {
        if self.trap_result(state, initial_thread) matches Ok(
            ThreadNextAction::ThreadExited { .. },
        ) {
            self.after_thread_exit()
        } else {
            self
        }
    }

    /// The state with the program counter set to `pc`.
    pub open spec fn with_pc(self, pc: u32) -> EnvironmentView {
        EnvironmentView {
            cpu: CpuContext {
                regs: vstd::array::spec_array_update(self.cpu.regs, PC as int, pc),
                ..self.cpu
            },
            ..self
        }
    }

    /// The state with the running thread marked as inside a host routine, or
    /// not.
    pub open spec fn with_in_host_function(self, in_host_function: bool) -> EnvironmentView {
        self.with_current(Thread { in_host_function, ..self.current() })
    }

    /// Whether the debugger wants the program counter moved back to the
    /// instruction that caused `error`.
    pub open spec fn rewinds(error: CpuError) -> bool {
        error == CpuError::UndefinedInstruction || error == CpuError::Breakpoint
    }

    /// The state in which a CPU error is handed to the debugger: for an
    /// undefined instruction or a breakpoint the program counter is back at
    /// the instruction, for a memory error it is where it was.
    pub open spec fn after_cpu_error(self, error: CpuError) -> EnvironmentView {
        if Self::rewinds(error) {
            self.with_pc((self.cpu.regs[PC as int] - self.cpu.spec_instruction_len()) as u32)
        } else {
            self
        }
    }

    /// What the run loop does when it is about to run the CPU: it runs it
    /// while the time slice lasts, one instruction at a time if the debugger
    /// is stepping, and yields when the slice is used up.
    pub open spec fn loop_action(self, step_and_debug: bool) -> RunAction {
        if self.cycles_remaining > 0 {
            RunAction::RunCpu {
                budget: if step_and_debug {
                    None
                } else {
                    Some(self.cycles_remaining)
                },
            }
        } else {
            RunAction::Yield
        }
    }

    /// What the run loop does after a trap was handled and execution may
    /// continue: while stepping, the debugger is asked first.
    pub open spec fn continue_action(self, step_and_debug: bool) -> RunAction {
        if step_and_debug {
            RunAction::WaitForDebugger { error: None }
        } else {
            self.loop_action(false)
        }
    }

    /// What the run loop does with a thread that is to run (again): a thread
    /// that has finished must never run again, and a blocked thread must not
    /// run before the scheduler has cleared its condition.
    pub open spec fn run_action(self, step_and_debug: bool) -> Result<RunAction, FatalFault> {
        if !self.current().active {
            Err(FatalFault::ExitedThreadResumed)
        } else if self.current().spec_is_blocked() {
            Err(FatalFault::BlockedThreadRunning)
        } else {
            Ok(self.loop_action(step_and_debug))
        }
    }

    /// What finishing the call of a host function that was invoked by the
    /// trap at `svc_pc` reports.
    pub open spec fn host_call_result(self, svc_pc: u32) -> Result<(), FatalFault> {
        if self.cpu.regs[PC as int] != svc_pc + 4 {
            Err(FatalFault::HostCallReturnMismatch)
        } else if self.current().spec_is_blocked() {
            Err(FatalFault::BlockedAfterHostCall)
        } else {
            Ok(())
        }
    }

    /// The state after the call of a host function was finished.
    pub open spec fn after_host_call(
        self,
        svc_pc: u32,
        was_in_host_function: bool,
    ) -> EnvironmentView {
        if self.cpu.regs[PC as int] != svc_pc + 4 {
            self
        } else {
            self.with_in_host_function(was_in_host_function)
        }
    }

    /// What preparing a CPU error for the debugger reports.
    pub open spec fn cpu_error_result(self, error: CpuError) -> Result<(), FatalFault> {
        if self.debugger_attached {
            Ok(())
        } else {
            Err(FatalFault::CpuError(error))
        }
    }

    /// The state in which the running thread begins to execute the guest
    /// function `func` on behalf of host code: execution continues at the
    /// function, which returns to the return-to-host trampoline, and the
    /// thread is not inside a host routine.
    pub open spec fn after_guest_call_begun(self, func: GuestFunction) -> EnvironmentView {
        EnvironmentView {
            cpu: self.cpu.after_branch_with_link(func, self.return_to_host_routine),
            ..self.with_in_host_function(false)
        }
    }

    /// The state after the guest function called by `call` has returned, if
    /// it returned on the thread that called it: the thread executes where
    /// it did before, with the link register and the host-routine mark it
    /// had before.
    pub open spec fn after_guest_call_ended(self, call: GuestCall) -> EnvironmentView {
        let branched = self.cpu.after_branch(call.old_pc);
        EnvironmentView {
            cpu: CpuContext {
                regs: vstd::array::spec_array_update(branched.regs, LR as int, call.old_lr),
                ..branched
            },
            ..self.with_in_host_function(call.call.was_in_host_function)
        }
    }

    /// What the events of a run segment ask of the state: a supervisor call
    /// leaves the program counter behind the trap, an error that rewinds
    /// leaves it behind the instruction, and a trap's address has room for
    /// the instruction that follows it.
    pub open spec fn accepts(self, event: RunEvent) -> bool {
        match event {
            RunEvent::CpuStopped(CpuState::Svc(_)) => self.cpu.regs[PC as int] >= 4,
            RunEvent::CpuStopped(CpuState::Error(error)) => Self::rewinds(error)
                ==> self.cpu.regs[PC as int] >= self.cpu.spec_instruction_len(),
            RunEvent::HandlerReturned { svc_pc, .. } => svc_pc + 4 <= u32::MAX,
            _ => true,
        }
    }

    /// One step of a run segment: what the run loop is told to do, the state
    /// afterwards, and the segment afterwards.
    pub open spec fn run_inner_step(self, seg: RunSegment, event: RunEvent) -> (
        Result<RunAction, FatalFault>,
        EnvironmentView,
        RunSegment,
    ) {
        match event {
            RunEvent::Resumed => (
                self.run_action(false),
                self,
                RunSegment { step_and_debug: false, ..seg },
            ),
            RunEvent::CpuStopped(state) => {
                let after = self.after_trap(state, seg.initial_thread);
                match self.trap_result(state, seg.initial_thread) {
                    Err(fault) => (Err(fault), after, seg),
                    Ok(ThreadNextAction::Continue) => (
                        Ok(after.continue_action(seg.step_and_debug)),
                        after,
                        seg,
                    ),
                    Ok(ThreadNextAction::ReturnToHost) => (Ok(RunAction::ReturnToHost), after, seg),
                    Ok(ThreadNextAction::DebugCpuError(error)) => (
                        match after.cpu_error_result(error) {
                            Ok(_) => Ok(RunAction::WaitForDebugger { error: Some(error) }),
                            Err(fault) => Err(fault),
                        },
                        after.after_cpu_error(error),
                        seg,
                    ),
                    Ok(ThreadNextAction::ThreadExited { stack }) => (
                        Ok(RunAction::ThreadExited { stack }),
                        after,
                        seg,
                    ),
                    Ok(ThreadNextAction::CallHostFunction { svc, svc_pc }) => (
                        Ok(RunAction::ResolveHandler { svc, svc_pc }),
                        after,
                        seg,
                    ),
                }
            },
            RunEvent::HandlerResolved { svc_pc, found } => if found {
                (
                    Ok(
                        RunAction::InvokeHandler {
                            svc_pc,
                            was_in_host_function: self.current().in_host_function,
                        },
                    ),
                    self.with_in_host_function(true),
                    seg,
                )
            } else {
                (
                    Ok(self.with_pc(svc_pc).continue_action(seg.step_and_debug)),
                    self.with_pc(svc_pc),
                    seg,
                )
            },
            RunEvent::HandlerReturned { svc_pc, was_in_host_function } => {
                let after = self.after_host_call(svc_pc, was_in_host_function);
                (
                    match self.host_call_result(svc_pc) {
                        Ok(_) => Ok(after.continue_action(seg.step_and_debug)),
                        Err(fault) => Err(fault),
                    },
                    after,
                    seg,
                )
            },
            RunEvent::DebuggerAnswered(step) => (
                Ok(self.loop_action(step)),
                self,
                RunSegment { step_and_debug: step, ..seg },
            ),
        }
    }
}

/// A change to the running thread's record that touches neither its blocking
/// condition nor its saved context keeps the state well-formed, as long as
/// the record itself stays well-formed and the main thread stays active.
proof fn lemma_bookkeeping_keeps_wf(v: EnvironmentView, t: Thread)
    requires
        v.wf(),
        t.blocked_by == v.current().blocked_by,
        t.cpu_context == v.current().cpu_context,
        t.wf(v.current_thread as int, v.threads.len() as int),
        v.current_thread == 0 ==> t.active,
    ensures
        v.with_current(t).wf(),
{
    let w = v.with_current(t);
    let cur = v.current_thread as int;
    assert forall|id: HostMutexId| #[trigger] w.mutexes.contains_key(id) implies id < w.mutex_count
        && w.mutexes[id].wf() && waiters(w.threads, id) <= w.mutexes[id].waiting_count by {
        lemma_waiters_update(v.threads, cur, t, id);
    }
    assert forall|i: int, id: HostMutexId|
        0 <= i < w.threads.len() && #[trigger] waits_on(w.threads[i], id) implies w.mutexes.contains_key(
        id,
    ) by {
        assert(waits_on(v.threads[i], id));
    }
}

impl Environment {
    /// Starts a new time slice: the running thread gets a fresh budget of
    /// instructions.
    pub fn begin_time_slice(&mut self)
        ensures
            final(self)@ == (EnvironmentView {
                cycles_remaining: TIME_SLICE_CYCLES,
                ..old(self)@
            }),
            old(self)@.wf() ==> final(self)@.wf(),
    {
        self.cycles_remaining = TIME_SLICE_CYCLES;
    }

    /// Decides what the run loop does next with the running thread.
    ///
    /// A thread that has finished must never run again, and a blocked thread
    /// must not run before the scheduler has cleared its condition: both are
    /// faults. Otherwise the CPU runs while the time slice lasts, one
    /// instruction at a time if the debugger is stepping, and the thread
    /// yields when the slice is used up.
    pub fn next_run_action(&self, step_and_debug: bool) -> (res: Result<RunAction, FatalFault>)
        requires
            self@.wf(),
        ensures
            res == self@.run_action(step_and_debug),
    {
        let thread = &self.threads[self.current_thread];
        if !thread.active {
            Err(FatalFault::ExitedThreadResumed)
        } else if thread.is_blocked() {
            Err(FatalFault::BlockedThreadRunning)
        } else {
            Ok(self.loop_action(step_and_debug))
        }
    }

    /// Decides what the run loop does when it is about to run the CPU.
    fn loop_action(&self, step_and_debug: bool) -> (action: RunAction)
        ensures
            action == self@.loop_action(step_and_debug),
    {
        if self.cycles_remaining > 0 {
            RunAction::RunCpu {
                budget: if step_and_debug {
                    None
                } else {
                    Some(self.cycles_remaining)
                },
            }
        } else {
            RunAction::Yield
        }
    }

    /// Decides what the run loop does after a trap was handled and
    /// execution may continue.
    fn continue_action(&self, step_and_debug: bool) -> (action: RunAction)
        ensures
            action == self@.continue_action(step_and_debug),
    {
        if step_and_debug {
            RunAction::WaitForDebugger { error: None }
        } else {
            self.loop_action(false)
        }
    }

    /// Advances a run segment by one step: takes what happened since the
    /// last step and tells the run loop what to do next.
    ///
    /// A segment begins with [`RunEvent::Resumed`] and goes on until the
    /// answer is [`RunAction::ReturnToHost`] or a fault. After
    /// [`RunAction::Yield`] and [`RunAction::ThreadExited`] the scheduler is
    /// asked; the segment goes on with [`RunEvent::Resumed`] when its thread
    /// has been switched in again, which for an exited thread is a fault.
    /// Every other action is answered by the event that reports its outcome.
    pub fn run_inner(&mut self, seg: &mut RunSegment, event: RunEvent) -> (res: Result<
        RunAction,
        FatalFault,
    >)
        requires
            old(self)@.wf(),
            old(self)@.accepts(event),
        ensures
            (res, final(self)@, *final(seg)) == old(self)@.run_inner_step(*old(seg), event),
            final(self)@.wf(),
    {
        match event {
            RunEvent::Resumed => {
                seg.step_and_debug = false;
                self.next_run_action(false)
            },
            RunEvent::CpuStopped(state) => {
                match self.handle_cpu_state(state, seg.initial_thread) {
                    Err(fault) => Err(fault),
                    Ok(ThreadNextAction::Continue) => Ok(self.continue_action(seg.step_and_debug)),
                    Ok(ThreadNextAction::ReturnToHost) => Ok(RunAction::ReturnToHost),
                    Ok(ThreadNextAction::DebugCpuError(error)) => {
                        match self.debug_cpu_error(error) {
                            Ok(()) => Ok(RunAction::WaitForDebugger { error: Some(error) }),
                            Err(fault) => Err(fault),
                        }
                    },
                    Ok(ThreadNextAction::ThreadExited { stack }) => Ok(
                        RunAction::ThreadExited { stack },
                    ),
                    Ok(ThreadNextAction::CallHostFunction { svc, svc_pc }) => Ok(
                        RunAction::ResolveHandler { svc, svc_pc },
                    ),
                }
            },
            RunEvent::HandlerResolved { svc_pc, found } => {
                if found {
                    let was_in_host_function = self.begin_host_call();
                    Ok(RunAction::InvokeHandler { svc_pc, was_in_host_function })
                } else {
                    self.rewind_to_trap(svc_pc);
                    Ok(self.continue_action(seg.step_and_debug))
                }
            },
            RunEvent::HandlerReturned { svc_pc, was_in_host_function } => {
                match self.end_host_call(svc_pc, was_in_host_function) {
                    Ok(()) => Ok(self.continue_action(seg.step_and_debug)),
                    Err(fault) => Err(fault),
                }
            },
            RunEvent::DebuggerAnswered(step) => {
                seg.step_and_debug = step;
                Ok(self.loop_action(step))
            },
        }
    }

    /// Begins the call of the guest function `func` from host code on the
    /// running thread: sets the registers up so that execution continues at
    /// the function and returns to the return-to-host trampoline, and marks
    /// the thread as running guest code. Returns what has to be put back
    /// when the function has returned.
    pub fn begin_guest_call(&mut self, func: GuestFunction) -> (call: GuestCall)
        requires
            old(self)@.wf(),
        ensures
            call == (GuestCall {
                call: RunCall {
                    thread: old(self)@.current_thread,
                    was_in_host_function: old(self)@.current().in_host_function,
                },
                old_pc: old(self)@.cpu.spec_pc_with_thumb_bit(),
                old_lr: old(self)@.cpu.regs[LR as int],
            }),
            final(self)@ == old(self)@.after_guest_call_begun(func),
            final(self)@.wf(),
    {
        let old_pc = self.cpu.pc_with_thumb_bit();
        let old_lr = self.cpu.regs[LR];
        self.cpu.branch_with_link(func, self.return_to_host_routine);
        let call = self.begin_run_call();
        GuestCall { call, old_pc, old_lr }
    }

    /// Ends the call of a guest function from host code, when the function
    /// has returned to the host: the call must end on the thread it began
    /// on, which then goes on where it was, with its link register and its
    /// host-routine mark as they were. Otherwise nothing changes.
    pub fn end_guest_call(&mut self, call: GuestCall) -> (res: Result<(), FatalFault>)
        requires
            old(self)@.wf(),
        ensures
            res == if old(self)@.current_thread == call.call.thread {
                Ok::<(), FatalFault>(())
            } else {
                Err::<(), FatalFault>(FatalFault::ThreadChangedDuringCall)
            },
            final(self)@ == if old(self)@.current_thread == call.call.thread {
                old(self)@.after_guest_call_ended(call)
            } else {
                old(self)@
            },
            final(self)@.wf(),
    {
        match self.end_run_call(call.call) {
            Err(fault) => Err(fault),
            Ok(()) => {
                self.cpu.branch(call.old_pc);
                self.cpu.regs[LR] = call.old_lr;
                Ok(())
            },
        }
    }

    /// Begins a run segment on the running thread.
    pub fn begin_run_segment(&self) -> (seg: RunSegment)
        ensures
            seg == (RunSegment { initial_thread: self@.current_thread, step_and_debug: false }),
    {
        RunSegment { initial_thread: self.current_thread, step_and_debug: false }
    }

    /// Responds to the state the CPU stopped in and decides what to do next
    /// with the running thread. `initial_thread` is the thread on which the
    /// current run segment was entered.
    ///
    /// A supervisor call finds the program counter just behind the trap
    /// instruction. The thread-exit trap is only valid at its trampoline and
    /// on a thread that runs a start routine; it deactivates the thread,
    /// keeps the value it returned and gives up its stack. The
    /// return-to-host trap is only valid at its trampoline and on the thread
    /// that entered the run segment. Every other supervisor call is a call
    /// of a host function.
    pub fn handle_cpu_state(&mut self, state: CpuState, initial_thread: ThreadID) -> (res: Result<
        ThreadNextAction,
        FatalFault,
    >)
        requires
            old(self)@.wf(),
            state is Svc ==> old(self)@.cpu.regs[PC as int] >= 4,
        ensures
            res == old(self)@.trap_result(state, initial_thread),
            final(self)@ == old(self)@.after_trap(state, initial_thread),
            final(self)@.wf(),
    {
        match state {
            CpuState::Normal => Ok(ThreadNextAction::Continue),
            CpuState::Svc(svc) => {
                // The program counter points at the instruction after the
                // trap; the trap itself is one instruction before.
                let svc_pc = self.cpu.regs[PC] - 4;
                if svc == SVC_THREAD_EXIT {
                    if svc_pc != self.thread_exit_routine.addr_without_thumb_bit() {
                        return Err(FatalFault::UnexpectedTrapAddress);
                    }
                    let mut curr_thread = self.threads[self.current_thread];
                    if !curr_thread.in_start_routine {
                        return Err(FatalFault::NonExitingThreadExited);
                    }
                    curr_thread.return_value = Some(self.cpu.regs[0]);
                    curr_thread.active = false;
                    curr_thread.in_start_routine = false;
                    let stack = curr_thread.stack.unwrap();
                    curr_thread.stack = None;
                    self.threads[self.current_thread] = curr_thread;
                    proof {
                        lemma_bookkeeping_keeps_wf(old(self)@, curr_thread);
                    }
                    Ok(ThreadNextAction::ThreadExited { stack: stack.0 })
                } else if svc == SVC_RETURN_TO_HOST {
                    if svc_pc != self.return_to_host_routine.addr_without_thumb_bit() {
                        return Err(FatalFault::UnexpectedTrapAddress);
                    }
                    if self.current_thread != initial_thread {
                        return Err(FatalFault::ReturnToHostOnWrongThread);
                    }
                    Ok(ThreadNextAction::ReturnToHost)
                } else {
                    Ok(ThreadNextAction::CallHostFunction { svc, svc_pc })
                }
            },
            CpuState::Error(e) => Ok(ThreadNextAction::DebugCpuError(e)),
        }
    }

    /// Marks the running thread as inside a host routine, before the handler
    /// of a host function is invoked. Returns what the mark was, to be put
    /// back when the handler is done.
    pub fn begin_host_call(&mut self) -> (was_in_host_function: bool)
        requires
            old(self)@.wf(),
        ensures
            was_in_host_function == old(self)@.current().in_host_function,
            final(self)@ == old(self)@.with_in_host_function(true),
            final(self)@.wf(),
    {
        let mut thread = self.threads[self.current_thread];
        let was_in_host_function = thread.in_host_function;
        thread.in_host_function = true;
        self.threads[self.current_thread] = thread;
        proof {
            lemma_bookkeeping_keeps_wf(old(self)@, thread);
        }
        was_in_host_function
    }

    /// Finishes the call of a host function that was invoked by the trap at
    /// `svc_pc`: checks that the handler left the program counter just
    /// behind the trap, puts back the running thread's host-routine mark,
    /// and checks that the handler did not leave the thread blocked.
    ///
    /// Where the program counter is wrong nothing is changed; where the
    /// thread is blocked the mark has been put back.
    pub fn end_host_call(&mut self, svc_pc: u32, was_in_host_function: bool) -> (res: Result<
        (),
        FatalFault,
    >)
        requires
            old(self)@.wf(),
            svc_pc + 4 <= u32::MAX,
        ensures
            res == old(self)@.host_call_result(svc_pc),
            final(self)@ == old(self)@.after_host_call(svc_pc, was_in_host_function),
            final(self)@.wf(),
    {
        if self.cpu.regs[PC] != svc_pc + 4 {
            return Err(FatalFault::HostCallReturnMismatch);
        }
        let mut thread = self.threads[self.current_thread];
        thread.in_host_function = was_in_host_function;
        self.threads[self.current_thread] = thread;
        proof {
            lemma_bookkeeping_keeps_wf(old(self)@, thread);
        }
        if thread.is_blocked() {
            return Err(FatalFault::BlockedAfterHostCall);
        }
        Ok(())
    }

    /// Moves the program counter back to the trap at `svc_pc`, for which no
    /// handler was found, so that the trap is executed again when the thread
    /// continues.
    pub fn rewind_to_trap(&mut self, svc_pc: u32)
        ensures
            final(self)@ == old(self)@.with_pc(svc_pc),
            old(self)@.wf() ==> final(self)@.wf(),
    {
        self.cpu.regs[PC] = svc_pc;
    }

    /// Prepares a CPU error for the debugger, or reports it as a fault if no
    /// debugger is attached.
    ///
    /// For an undefined instruction or a breakpoint the program counter is
    /// moved back to the instruction at which the error occurred, so that
    /// the debugger finds its breakpoints; for a memory error it is not.
    /// This happens whether or not a debugger is attached.
    pub fn debug_cpu_error(&mut self, error: CpuError) -> (res: Result<(), FatalFault>)
        requires
            EnvironmentView::rewinds(error) ==> old(self)@.cpu.regs[PC as int] >= old(
                self,
            )@.cpu.spec_instruction_len(),
        ensures
            res == old(self)@.cpu_error_result(error),
            final(self)@ == old(self)@.after_cpu_error(error),
            old(self)@.wf() ==> final(self)@.wf(),
    {
        if matches!(error, CpuError::UndefinedInstruction) || matches!(error, CpuError::Breakpoint) {
            let instruction_len = self.cpu.instruction_len();
            self.cpu.regs[PC] = self.cpu.regs[PC] - instruction_len;
        }
        if !self.debugger_attached {
            return Err(FatalFault::CpuError(error));
        }
        Ok(())
    }

    /// Begins a host-to-guest call on the running thread: while guest code
    /// runs, the thread is not inside a host routine. Returns what has to be
    /// put back when the call is over.
    pub fn begin_run_call(&mut self) -> (call: RunCall)
        requires
            old(self)@.wf(),
        ensures
            call == (RunCall {
                thread: old(self)@.current_thread,
                was_in_host_function: old(self)@.current().in_host_function,
            }),
            final(self)@ == old(self)@.with_in_host_function(false),
            final(self)@.wf(),
    {
        let mut thread = self.threads[self.current_thread];
        let call = RunCall {
            thread: self.current_thread,
            was_in_host_function: thread.in_host_function,
        };
        thread.in_host_function = false;
        self.threads[self.current_thread] = thread;
        proof {
            lemma_bookkeeping_keeps_wf(old(self)@, thread);
        }
        call
    }

    /// Ends a host-to-guest call: the call must end on the thread it began
    /// on, and that thread's host-routine mark is put back.
    pub fn end_run_call(&mut self, call: RunCall) -> (res: Result<(), FatalFault>)
        requires
            old(self)@.wf(),
        ensures
            res == if old(self)@.current_thread == call.thread {
                Ok::<(), FatalFault>(())
            } else {
                Err::<(), FatalFault>(FatalFault::ThreadChangedDuringCall)
            },
            final(self)@ == if old(self)@.current_thread == call.thread {
                old(self)@.with_in_host_function(call.was_in_host_function)
            } else {
                old(self)@
            },
            final(self)@.wf(),
    {
        if self.current_thread != call.thread {
            return Err(FatalFault::ThreadChangedDuringCall);
        }
        let mut thread = self.threads[self.current_thread];
        thread.in_host_function = call.was_in_host_function;
        self.threads[self.current_thread] = thread;
        proof {
            lemma_bookkeeping_keeps_wf(old(self)@, thread);
        }
        Ok(())
    }
}

} // verus!
