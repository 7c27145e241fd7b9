use touchhle::cpu::{CpuError, CpuState, GuestFunction, CPSR_THUMB, CPSR_USER_MODE, LR, PC};
use touchhle::environment::dispatch::{
    GuestCall, RunAction, RunCall, RunEvent, RunSegment, ThreadNextAction, SVC_LAZY_LINK,
    SVC_LINKED_FUNCTIONS_BASE, SVC_RETURN_TO_HOST, SVC_THREAD_EXIT, TIME_SLICE_CYCLES,
};
use touchhle::environment::scheduler::{RunLoopEvent, ScheduleOutcome};
use touchhle::environment::{Environment, ThreadBlock};
use touchhle::fault::FatalFault;

const EXIT: u32 = 0x2001;
const RETURN_TO_HOST: u32 = 0x2009;

fn engine(debugger: bool) -> Environment {
    Environment::new(
        GuestFunction::from_addr_with_thumb_bit(0x1000),
        (0xfff0_0000, 0xffff_ffff),
        GuestFunction::from_addr_with_thumb_bit(EXIT),
        GuestFunction::from_addr_with_thumb_bit(RETURN_TO_HOST),
        debugger,
    )
}

/// An engine whose second thread is the running one.
fn engine_on_second_thread() -> Environment {
    let mut env = engine(false);
    env.new_thread(GuestFunction::from_addr_with_thumb_bit(0x3000), 5, 0x10000, 0x1000);
    assert_eq!(
        env.schedule_next_thread(0),
        Ok(ScheduleOutcome::Run { thread: 1, join_result: None })
    );
    env
}

#[test]
fn trap_numbers() {
    assert_eq!(SVC_LAZY_LINK, 0);
    assert_eq!(SVC_RETURN_TO_HOST, 1);
    assert_eq!(SVC_THREAD_EXIT, 2);
    assert_eq!(SVC_LINKED_FUNCTIONS_BASE, 3);
    assert_eq!(TIME_SLICE_CYCLES, 100_000);
}

#[test]
fn no_trap_means_continue() {
    let mut env = engine(false);
    assert_eq!(env.handle_cpu_state(CpuState::Normal, 0), Ok(ThreadNextAction::Continue));
}

#[test]
fn a_cpu_error_goes_to_the_debugger() {
    let mut env = engine(false);
    for e in [CpuError::MemoryError, CpuError::UndefinedInstruction, CpuError::Breakpoint] {
        assert_eq!(
            env.handle_cpu_state(CpuState::Error(e), 0),
            Ok(ThreadNextAction::DebugCpuError(e))
        );
    }
    assert_eq!(env.cpu.regs[PC], 0x1000);
}

#[test]
fn the_exit_trap_deactivates_a_secondary_thread() {
    let mut env = engine_on_second_thread();
    env.cpu.regs[0] = 0x77;
    env.cpu.regs[PC] = 0x2000 + 4;
    assert_eq!(
        env.handle_cpu_state(CpuState::Svc(SVC_THREAD_EXIT), 1),
        Ok(ThreadNextAction::ThreadExited { stack: 0x10000 })
    );
    let thread = env.thread(1);
    assert!(!thread.active);
    assert!(!thread.in_start_routine);
    assert_eq!(thread.return_value, Some(0x77));
    assert_eq!(thread.stack, None);
    assert_eq!(env.current_thread_id(), 1);
    // Resuming the thread after this point is a fault.
    assert_eq!(env.next_run_action(false), Err(FatalFault::ExitedThreadResumed));
    let mut seg = RunSegment { initial_thread: 1, step_and_debug: false };
    assert_eq!(env.run_inner(&mut seg, RunEvent::Resumed), Err(FatalFault::ExitedThreadResumed));
}

#[test]
fn the_exit_trap_on_the_main_thread_is_a_fault() {
    let mut env = engine(false);
    env.cpu.regs[PC] = 0x2000 + 4;
    assert_eq!(
        env.handle_cpu_state(CpuState::Svc(SVC_THREAD_EXIT), 0),
        Err(FatalFault::NonExitingThreadExited)
    );
    assert!(env.thread(0).active);
    assert_eq!(env.thread(0).return_value, None);
}

#[test]
fn the_exit_trap_away_from_its_trampoline_is_a_fault() {
    let mut env = engine_on_second_thread();
    env.cpu.regs[PC] = 0x2000 + 8;
    assert_eq!(
        env.handle_cpu_state(CpuState::Svc(SVC_THREAD_EXIT), 1),
        Err(FatalFault::UnexpectedTrapAddress)
    );
    assert!(env.thread(1).active);
}

#[test]
fn the_return_trap_ends_the_call_on_the_thread_that_began_it() {
    let mut env = engine_on_second_thread();
    env.cpu.regs[PC] = 0x2008 + 4;
    assert_eq!(
        env.handle_cpu_state(CpuState::Svc(SVC_RETURN_TO_HOST), 1),
        Ok(ThreadNextAction::ReturnToHost)
    );
    assert_eq!(
        env.handle_cpu_state(CpuState::Svc(SVC_RETURN_TO_HOST), 0),
        Err(FatalFault::ReturnToHostOnWrongThread)
    );
    env.cpu.regs[PC] = 0x2000 + 4;
    assert_eq!(
        env.handle_cpu_state(CpuState::Svc(SVC_RETURN_TO_HOST), 1),
        Err(FatalFault::UnexpectedTrapAddress)
    );
}

#[test]
fn every_other_trap_calls_a_host_function() {
    let mut env = engine(false);
    env.cpu.regs[PC] = 0x5004;
    for svc in [SVC_LAZY_LINK, SVC_LINKED_FUNCTIONS_BASE, 4, 1000, u32::MAX] {
        assert_eq!(
            env.handle_cpu_state(CpuState::Svc(svc), 0),
            Ok(ThreadNextAction::CallHostFunction { svc, svc_pc: 0x5000 })
        );
    }
}

#[test]
fn a_host_call_marks_the_thread_and_puts_the_mark_back() {
    let mut env = engine(false);
    env.cpu.regs[PC] = 0x5004;
    assert!(!env.begin_host_call());
    assert!(env.thread(0).in_host_function);
    // A nested call sees the mark and restores it.
    assert!(env.begin_host_call());
    assert_eq!(env.end_host_call(0x5000, true), Ok(()));
    assert!(env.thread(0).in_host_function);
    assert_eq!(env.end_host_call(0x5000, false), Ok(()));
    assert!(!env.thread(0).in_host_function);
}

#[test]
fn a_host_call_that_moves_the_program_counter_is_a_fault() {
    let mut env = engine(false);
    env.cpu.regs[PC] = 0x5004;
    assert!(!env.begin_host_call());
    env.cpu.regs[PC] = 0x5008;
    assert_eq!(env.end_host_call(0x5000, false), Err(FatalFault::HostCallReturnMismatch));
    assert!(env.thread(0).in_host_function);
}

#[test]
fn a_host_call_that_leaves_the_thread_blocked_is_a_fault() {
    let mut env = engine(false);
    env.cpu.regs[PC] = 0x5004;
    assert!(!env.begin_host_call());
    env.sleep(0, 10);
    assert_eq!(env.end_host_call(0x5000, false), Err(FatalFault::BlockedAfterHostCall));
    assert!(!env.thread(0).in_host_function);
}

#[test]
fn a_trap_without_handler_is_executed_again() {
    let mut env = engine(false);
    env.cpu.regs[PC] = 0x5004;
    env.rewind_to_trap(0x5000);
    assert_eq!(env.cpu.regs[PC], 0x5000);
}

#[test]
fn a_cpu_error_without_debugger_is_a_fault() {
    let mut env = engine(false);
    env.cpu.regs[PC] = 0x6004;
    assert_eq!(
        env.debug_cpu_error(CpuError::MemoryError),
        Err(FatalFault::CpuError(CpuError::MemoryError))
    );
    assert_eq!(env.cpu.regs[PC], 0x6004);
    assert_eq!(
        env.debug_cpu_error(CpuError::Breakpoint),
        Err(FatalFault::CpuError(CpuError::Breakpoint))
    );
    assert_eq!(env.cpu.regs[PC], 0x6000);
}

#[test]
fn the_debugger_sees_the_faulting_instruction() {
    let mut env = engine(true);
    // ARM mode: instructions are four bytes long.
    env.cpu.regs[PC] = 0x6004;
    assert_eq!(env.debug_cpu_error(CpuError::UndefinedInstruction), Ok(()));
    assert_eq!(env.cpu.regs[PC], 0x6000);
    env.cpu.regs[PC] = 0x6004;
    assert_eq!(env.debug_cpu_error(CpuError::Breakpoint), Ok(()));
    assert_eq!(env.cpu.regs[PC], 0x6000);
    // A memory error leaves the program counter alone.
    env.cpu.regs[PC] = 0x6004;
    assert_eq!(env.debug_cpu_error(CpuError::MemoryError), Ok(()));
    assert_eq!(env.cpu.regs[PC], 0x6004);
    // Thumb mode: two bytes.
    env.cpu.set_cpsr(CPSR_USER_MODE | CPSR_THUMB);
    assert_eq!(env.debug_cpu_error(CpuError::Breakpoint), Ok(()));
    assert_eq!(env.cpu.regs[PC], 0x6002);
}

#[test]
fn the_cpu_runs_while_the_time_slice_lasts() {
    let mut env = engine(false);
    env.begin_time_slice();
    assert_eq!(env.cycles_remaining, 100_000);
    assert_eq!(env.next_run_action(false), Ok(RunAction::RunCpu { budget: Some(100_000) }));
    assert_eq!(env.next_run_action(true), Ok(RunAction::RunCpu { budget: None }));
    env.cycles_remaining = 1;
    assert_eq!(env.next_run_action(false), Ok(RunAction::RunCpu { budget: Some(1) }));
    env.cycles_remaining = 0;
    assert_eq!(env.next_run_action(false), Ok(RunAction::Yield));
    assert_eq!(env.next_run_action(true), Ok(RunAction::Yield));
}

#[test]
fn a_blocked_thread_must_not_run() {
    let mut env = engine(false);
    env.sleep(0, 1);
    assert_eq!(env.next_run_action(false), Err(FatalFault::BlockedThreadRunning));
}

#[test]
fn a_host_to_guest_call_clears_and_restores_the_mark() {
    let mut env = engine(false);
    assert!(!env.begin_host_call());
    let call = env.begin_run_call();
    assert_eq!(call, RunCall { thread: 0, was_in_host_function: true });
    assert!(!env.thread(0).in_host_function);
    assert_eq!(env.end_run_call(call), Ok(()));
    assert!(env.thread(0).in_host_function);
}

#[test]
fn a_host_to_guest_call_must_end_on_its_thread() {
    let mut env = engine(false);
    env.new_thread(GuestFunction::from_addr_with_thumb_bit(0x3000), 0, 0x10000, 0x1000);
    assert!(!env.begin_host_call());
    let call = env.begin_run_call();
    env.schedule_next_thread(0).unwrap();
    assert_eq!(env.current_thread_id(), 1);
    assert_eq!(env.end_run_call(call), Err(FatalFault::ThreadChangedDuringCall));
    assert!(!env.thread(0).in_host_function);
    assert!(!env.thread(1).in_host_function);
}

#[test]
fn a_run_segment_from_entry_to_return() {
    let mut env = engine(false);
    env.begin_time_slice();
    let mut seg = env.begin_run_segment();
    assert_eq!(seg, RunSegment { initial_thread: 0, step_and_debug: false });
    assert_eq!(
        env.run_inner(&mut seg, RunEvent::Resumed),
        Ok(RunAction::RunCpu { budget: Some(100_000) })
    );
    // The guest calls a host function.
    env.cycles_remaining = 90_000;
    env.cpu.regs[PC] = 0x5004;
    assert_eq!(
        env.run_inner(&mut seg, RunEvent::CpuStopped(CpuState::Svc(17))),
        Ok(RunAction::ResolveHandler { svc: 17, svc_pc: 0x5000 })
    );
    assert_eq!(
        env.run_inner(&mut seg, RunEvent::HandlerResolved { svc_pc: 0x5000, found: true }),
        Ok(RunAction::InvokeHandler { svc_pc: 0x5000, was_in_host_function: false })
    );
    assert!(env.thread(0).in_host_function);
    assert_eq!(
        env.run_inner(
            &mut seg,
            RunEvent::HandlerReturned { svc_pc: 0x5000, was_in_host_function: false }
        ),
        Ok(RunAction::RunCpu { budget: Some(90_000) })
    );
    assert!(!env.thread(0).in_host_function);
    // The budget runs out.
    env.cycles_remaining = 0;
    assert_eq!(
        env.run_inner(&mut seg, RunEvent::CpuStopped(CpuState::Normal)),
        Ok(RunAction::Yield)
    );
    assert_eq!(
        env.run(RunLoopEvent::Suspended { now: 0 }),
        Ok(ScheduleOutcome::Run { thread: 0, join_result: None })
    );
    assert_eq!(env.cycles_remaining, 100_000);
    assert_eq!(
        env.run_inner(&mut seg, RunEvent::Resumed),
        Ok(RunAction::RunCpu { budget: Some(100_000) })
    );
    // The guest returns to the host.
    env.cpu.regs[PC] = 0x2008 + 4;
    assert_eq!(
        env.run_inner(&mut seg, RunEvent::CpuStopped(CpuState::Svc(SVC_RETURN_TO_HOST))),
        Ok(RunAction::ReturnToHost)
    );
}

#[test]
fn a_trap_without_handler_is_retried_by_the_run_segment() {
    let mut env = engine(false);
    env.begin_time_slice();
    let mut seg = env.begin_run_segment();
    env.cpu.regs[PC] = 0x5004;
    assert_eq!(
        env.run_inner(&mut seg, RunEvent::HandlerResolved { svc_pc: 0x5000, found: false }),
        Ok(RunAction::RunCpu { budget: Some(100_000) })
    );
    assert_eq!(env.cpu.regs[PC], 0x5000);
    assert!(!env.thread(0).in_host_function);
}

#[test]
fn the_debugger_steps_through_a_run_segment() {
    let mut env = engine(true);
    env.begin_time_slice();
    let mut seg = env.begin_run_segment();
    env.cpu.regs[PC] = 0x6004;
    assert_eq!(
        env.run_inner(&mut seg, RunEvent::CpuStopped(CpuState::Error(CpuError::Breakpoint))),
        Ok(RunAction::WaitForDebugger { error: Some(CpuError::Breakpoint) })
    );
    assert_eq!(env.cpu.regs[PC], 0x6000);
    // The debugger asks for a single step.
    assert_eq!(
        env.run_inner(&mut seg, RunEvent::DebuggerAnswered(true)),
        Ok(RunAction::RunCpu { budget: None })
    );
    assert!(seg.step_and_debug);
    assert_eq!(
        env.run_inner(&mut seg, RunEvent::CpuStopped(CpuState::Normal)),
        Ok(RunAction::WaitForDebugger { error: None })
    );
    // The debugger lets the thread run on.
    assert_eq!(
        env.run_inner(&mut seg, RunEvent::DebuggerAnswered(false)),
        Ok(RunAction::RunCpu { budget: Some(100_000) })
    );
    assert!(!seg.step_and_debug);
    assert_eq!(
        env.run_inner(&mut seg, RunEvent::CpuStopped(CpuState::Normal)),
        Ok(RunAction::RunCpu { budget: Some(100_000) })
    );
}

#[test]
fn a_cpu_error_ends_a_run_segment_without_debugger() {
    let mut env = engine(false);
    let mut seg = env.begin_run_segment();
    assert_eq!(
        env.run_inner(&mut seg, RunEvent::CpuStopped(CpuState::Error(CpuError::MemoryError))),
        Err(FatalFault::CpuError(CpuError::MemoryError))
    );
}

#[test]
fn a_thread_exit_ends_its_run_segment_for_good() {
    let mut env = engine_on_second_thread();
    let mut seg = env.begin_run_segment();
    env.cpu.regs[0] = 9;
    env.cpu.regs[PC] = 0x2000 + 4;
    assert_eq!(
        env.run_inner(&mut seg, RunEvent::CpuStopped(CpuState::Svc(SVC_THREAD_EXIT))),
        Ok(RunAction::ThreadExited { stack: 0x10000 })
    );
    assert_eq!(
        env.run(RunLoopEvent::Suspended { now: 0 }),
        Ok(ScheduleOutcome::Run { thread: 0, join_result: None })
    );
    assert_eq!(env.thread(1).return_value, Some(9));
}

#[test]
fn the_main_loop_starts_with_the_running_thread() {
    let mut env = engine(false);
    env.new_thread(GuestFunction::from_addr_with_thumb_bit(0x3000), 0, 0x10000, 0x1000);
    assert_eq!(
        env.run(RunLoopEvent::Started),
        Ok(ScheduleOutcome::Run { thread: 0, join_result: None })
    );
    assert_eq!(env.cycles_remaining, 100_000);
    env.cycles_remaining = 3;
    env.sleep(10, 5);
    assert_eq!(
        env.run(RunLoopEvent::Suspended { now: 10 }),
        Ok(ScheduleOutcome::Run { thread: 1, join_result: None })
    );
    assert_eq!(env.cycles_remaining, 100_000);
    env.cycles_remaining = 4;
    env.sleep(10, 7);
    // While the engine idles, nothing changes.
    assert_eq!(
        env.run(RunLoopEvent::Suspended { now: 10 }),
        Ok(ScheduleOutcome::Idle { until: 15 })
    );
    assert_eq!(env.cycles_remaining, 4);
    assert_eq!(env.thread(0).blocked_by, ThreadBlock::Sleeping(15));
    assert_eq!(
        env.run(RunLoopEvent::Suspended { now: 15 }),
        Ok(ScheduleOutcome::Run { thread: 0, join_result: None })
    );
}

#[test]
fn a_guest_call_sets_the_registers_up_and_puts_them_back() {
    let mut env = engine(false);
    env.cpu.set_cpsr(CPSR_USER_MODE | CPSR_THUMB);
    env.cpu.regs[PC] = 0x7000;
    env.cpu.regs[LR] = 0x7101;
    assert!(!env.begin_host_call());
    let call = env.begin_guest_call(GuestFunction::from_addr_with_thumb_bit(0x8000));
    assert_eq!(
        call,
        GuestCall {
            call: RunCall { thread: 0, was_in_host_function: true },
            old_pc: GuestFunction::from_addr_with_thumb_bit(0x7001),
            old_lr: 0x7101,
        }
    );
    assert_eq!(env.cpu.regs[PC], 0x8000);
    assert_eq!(env.cpu.regs[LR], RETURN_TO_HOST);
    assert_eq!(env.cpu.cpsr, CPSR_USER_MODE);
    assert!(!env.thread(0).in_host_function);
    // The guest function clobbers the link register and returns.
    env.cpu.regs[LR] = 0x1234;
    env.cpu.regs[PC] = 0x2008 + 4;
    assert_eq!(env.end_guest_call(call), Ok(()));
    assert_eq!(env.cpu.regs[PC], 0x7000);
    assert_eq!(env.cpu.regs[LR], 0x7101);
    assert_eq!(env.cpu.cpsr, CPSR_USER_MODE | CPSR_THUMB);
    assert!(env.thread(0).in_host_function);
}

#[test]
fn a_guest_call_that_ends_on_another_thread_changes_nothing() {
    let mut env = engine(false);
    env.new_thread(GuestFunction::from_addr_with_thumb_bit(0x3000), 0, 0x10000, 0x1000);
    let call = env.begin_guest_call(GuestFunction::from_addr_with_thumb_bit(0x8000));
    env.schedule_next_thread(0).unwrap();
    let before = env.cpu;
    assert_eq!(env.end_guest_call(call), Err(FatalFault::ThreadChangedDuringCall));
    assert_eq!(env.cpu.regs, before.regs);
    assert_eq!(env.cpu.cpsr, before.cpsr);
}
