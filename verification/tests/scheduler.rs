use touchhle::cpu::{CpuState, GuestFunction, PC};
use touchhle::environment::dispatch::ThreadNextAction;
use touchhle::environment::mutex::{
    host_mutex_init, host_mutex_is_locked, host_mutex_lock, host_mutex_unlock, MutexHostObject,
    MutexType,
};
use touchhle::environment::scheduler::ScheduleOutcome;
use touchhle::environment::{Environment, ThreadBlock};
use touchhle::fault::FatalFault;

const EXIT: u32 = 0x2000;
const RETURN_TO_HOST: u32 = 0x2008;

fn engine() -> Environment {
    Environment::new(
        GuestFunction::from_addr_with_thumb_bit(0x1000),
        (0xfff0_0000, 0xffff_ffff),
        GuestFunction::from_addr_with_thumb_bit(EXIT),
        GuestFunction::from_addr_with_thumb_bit(RETURN_TO_HOST),
        false,
    )
}

fn spawn(env: &mut Environment, n: u32) {
    for i in 0..n {
        env.new_thread(
            GuestFunction::from_addr_with_thumb_bit(0x3000),
            0,
            0x10000 + i * 0x1000,
            0x1000,
        );
    }
}

fn run(thread: usize) -> Result<ScheduleOutcome, FatalFault> {
    Ok(ScheduleOutcome::Run { thread, join_result: None })
}

/// Lets the running thread, which must be a secondary one, take its exit
/// trap with the given return value.
fn exit_running_thread(env: &mut Environment, value: u32) {
    env.cpu.regs[0] = value;
    env.cpu.regs[PC] = EXIT + 4;
    let thread = env.current_thread_id();
    let stack = env.thread(thread).stack.unwrap().0;
    assert_eq!(
        env.handle_cpu_state(CpuState::Svc(2), thread),
        Ok(ThreadNextAction::ThreadExited { stack })
    );
}

#[test]
fn a_lone_thread_is_scheduled_again() {
    let mut env = engine();
    assert_eq!(env.schedule_next_thread(0), run(0));
    assert_eq!(env.current_thread_id(), 0);
    assert!(env.thread(0).cpu_context.is_none());
}

#[test]
fn round_robin_starts_after_the_running_thread() {
    let mut env = engine();
    spawn(&mut env, 3);
    assert_eq!(env.thread_count(), 4);
    for expected in [1, 2, 3, 0, 1, 2, 3, 0] {
        assert_eq!(env.schedule_next_thread(0), run(expected));
        assert_eq!(env.current_thread_id(), expected);
        // Exactly the running thread has no saved context.
        for i in 0..env.thread_count() {
            assert_eq!(env.thread(i).cpu_context.is_none(), i == expected);
        }
    }
}

#[test]
fn switching_saves_and_restores_registers() {
    let mut env = engine();
    spawn(&mut env, 1);
    env.cpu.regs[4] = 0xaaaa;
    let main_registers = env.cpu;
    let second_registers = env.thread(1).cpu_context.unwrap();
    assert_eq!(env.schedule_next_thread(0), run(1));
    assert_eq!(env.cpu.regs, second_registers.regs);
    assert_eq!(env.cpu.cpsr, second_registers.cpsr);
    assert_eq!(env.thread(0).cpu_context.unwrap().regs, main_registers.regs);
    env.cpu.regs[5] = 0xbbbb;
    assert_eq!(env.schedule_next_thread(0), run(0));
    assert_eq!(env.cpu.regs, main_registers.regs);
    assert_eq!(env.thread(1).cpu_context.unwrap().regs[5], 0xbbbb);
}

#[test]
fn the_unblocked_thread_wins_whatever_the_scan_order() {
    let mut env = engine();
    spawn(&mut env, 2);
    let m = host_mutex_init(&mut env, MutexType::PTHREAD_MUTEX_NORMAL);
    let now = 1_000;
    // Thread 1 takes the mutex.
    assert_eq!(env.schedule_next_thread(now), run(1));
    assert_eq!(host_mutex_lock(&mut env, m), Ok(Ok(1)));
    // Thread 2 waits for it.
    assert_eq!(env.schedule_next_thread(now), run(2));
    assert_eq!(host_mutex_lock(&mut env, m), Ok(Ok(1)));
    assert_eq!(env.thread(2).blocked_by, ThreadBlock::Mutex(m));
    // The main thread goes to sleep for 50 ticks.
    assert_eq!(env.schedule_next_thread(now), run(0));
    env.sleep(now, 50);
    assert_eq!(env.thread(0).blocked_by, ThreadBlock::Sleeping(now + 50));
    // Only thread 1 can run, from wherever the scan starts.
    assert_eq!(env.schedule_next_thread(now), run(1));
    assert_eq!(env.schedule_next_thread(now), run(1));
    assert_eq!(env.schedule_next_thread(now + 49), run(1));
    // Once the mutex is free, the waiter is chosen over the sleeper.
    assert_eq!(host_mutex_unlock(&mut env, m), Ok(Ok(0)));
    assert_eq!(env.schedule_next_thread(now + 49), run(2));
    assert_eq!(env.thread(2).blocked_by, ThreadBlock::NotBlocked);
    assert_eq!(env.thread(0).blocked_by, ThreadBlock::Sleeping(now + 50));
    // The waiter holds the mutex now and no longer counts as waiting.
    assert_eq!(
        env.mutex(m),
        Some(MutexHostObject {
            type_: MutexType::PTHREAD_MUTEX_NORMAL,
            waiting_count: 0,
            locked: Some((2, 1)),
        })
    );
}

#[test]
fn a_sleeper_wakes_when_its_deadline_has_come() {
    let mut env = engine();
    spawn(&mut env, 1);
    env.sleep(100, 50);
    assert_eq!(env.schedule_next_thread(100), run(1));
    env.sleep(100, 20);
    assert_eq!(env.thread(1).blocked_by, ThreadBlock::Sleeping(120));
    // Both sleep: the engine idles until the earlier deadline.
    assert_eq!(env.schedule_next_thread(100), Ok(ScheduleOutcome::Idle { until: 120 }));
    assert_eq!(env.schedule_next_thread(119), Ok(ScheduleOutcome::Idle { until: 120 }));
    assert_eq!(env.current_thread_id(), 1);
    assert_eq!(env.thread(1).blocked_by, ThreadBlock::Sleeping(120));
    // At the deadline the sleeper runs.
    assert_eq!(env.schedule_next_thread(120), run(1));
    assert_eq!(env.thread(1).blocked_by, ThreadBlock::NotBlocked);
    env.sleep(120, 100);
    assert_eq!(env.schedule_next_thread(120), Ok(ScheduleOutcome::Idle { until: 150 }));
    assert_eq!(env.schedule_next_thread(150), run(0));
    assert_eq!(env.thread(0).blocked_by, ThreadBlock::NotBlocked);
}

#[test]
fn when_two_deadlines_have_passed_the_scan_order_decides() {
    let mut env = engine();
    spawn(&mut env, 2);
    assert_eq!(env.schedule_next_thread(0), run(1));
    env.sleep(0, 30);
    assert_eq!(env.schedule_next_thread(0), run(2));
    env.sleep(0, 10);
    assert_eq!(env.schedule_next_thread(0), run(0));
    env.sleep(0, 20);
    assert_eq!(env.schedule_next_thread(0), Ok(ScheduleOutcome::Idle { until: 10 }));
    // All three deadlines have passed; thread 1 follows the running thread.
    assert_eq!(env.schedule_next_thread(40), run(1));
    assert_eq!(env.schedule_next_thread(40), run(2));
    assert_eq!(env.schedule_next_thread(40), run(0));
}

#[test]
fn joining_a_finished_thread_hands_out_its_return_value() {
    let mut env = engine();
    spawn(&mut env, 1);
    assert_eq!(env.schedule_next_thread(0), run(1));
    exit_running_thread(&mut env, 0xcafe);
    assert!(!env.thread(1).active);
    assert_eq!(env.thread(1).return_value, Some(0xcafe));
    assert_eq!(env.thread(1).stack, None);
    assert_eq!(env.schedule_next_thread(0), run(0));
    // The thread has finished already: the joiner is woken at once.
    env.join_with_thread(1, 0x8000);
    assert_eq!(env.thread(0).blocked_by, ThreadBlock::Joining(1, 0x8000));
    assert_eq!(
        env.schedule_next_thread(0),
        Ok(ScheduleOutcome::Run { thread: 0, join_result: Some((0x8000, 0xcafe)) })
    );
    assert_eq!(env.thread(0).blocked_by, ThreadBlock::NotBlocked);
}

#[test]
fn joining_with_a_null_pointer_hands_out_nothing() {
    let mut env = engine();
    spawn(&mut env, 1);
    assert_eq!(env.schedule_next_thread(0), run(1));
    exit_running_thread(&mut env, 7);
    assert_eq!(env.schedule_next_thread(0), run(0));
    env.join_with_thread(1, 0);
    assert_eq!(env.schedule_next_thread(0), run(0));
}

#[test]
fn joining_a_running_thread_waits_until_it_has_finished() {
    let mut env = engine();
    spawn(&mut env, 1);
    env.join_with_thread(1, 0x8000);
    assert_eq!(env.schedule_next_thread(0), run(1));
    // The joiner stays blocked while thread 1 is active.
    assert_eq!(env.schedule_next_thread(0), run(1));
    assert_eq!(env.thread(0).blocked_by, ThreadBlock::Joining(1, 0x8000));
    exit_running_thread(&mut env, 42);
    assert_eq!(
        env.schedule_next_thread(0),
        Ok(ScheduleOutcome::Run { thread: 0, join_result: Some((0x8000, 42)) })
    );
}

#[test]
fn a_finished_thread_is_never_scheduled() {
    let mut env = engine();
    spawn(&mut env, 2);
    assert_eq!(env.schedule_next_thread(0), run(1));
    exit_running_thread(&mut env, 0);
    for expected in [2, 0, 2, 0] {
        assert_eq!(env.schedule_next_thread(0), run(expected));
    }
}

#[test]
fn threads_that_only_wait_for_each_other_deadlock() {
    let mut env = engine();
    spawn(&mut env, 1);
    let m = host_mutex_init(&mut env, MutexType::PTHREAD_MUTEX_NORMAL);
    // The main thread takes the mutex and joins thread 1; thread 1 waits for
    // the mutex.
    assert_eq!(host_mutex_lock(&mut env, m), Ok(Ok(1)));
    env.join_with_thread(1, 0);
    assert_eq!(env.schedule_next_thread(0), run(1));
    assert_eq!(host_mutex_lock(&mut env, m), Ok(Ok(1)));
    let before_threads: Vec<ThreadBlock> =
        (0..env.thread_count()).map(|i| env.thread(i).blocked_by).collect();
    assert_eq!(env.schedule_next_thread(0), Err(FatalFault::Deadlock));
    assert_eq!(env.schedule_next_thread(u64::MAX), Err(FatalFault::Deadlock));
    // The fault changes nothing.
    let after_threads: Vec<ThreadBlock> =
        (0..env.thread_count()).map(|i| env.thread(i).blocked_by).collect();
    assert_eq!(before_threads, after_threads);
    assert_eq!(env.current_thread_id(), 1);
    assert!(host_mutex_is_locked(&env, m));
}

#[test]
fn a_thread_that_joins_itself_deadlocks() {
    let mut env = engine();
    env.join_with_thread(0, 0);
    assert_eq!(env.schedule_next_thread(5), Err(FatalFault::Deadlock));
}

#[test]
fn a_mutex_is_handed_over_only_after_the_holders_sleep() {
    let mut env = engine();
    let m = host_mutex_init(&mut env, MutexType::PTHREAD_MUTEX_NORMAL);
    spawn(&mut env, 1);
    let mut now = 5_000;
    // Thread A locks the mutex and goes to sleep for 10 ticks.
    assert_eq!(env.schedule_next_thread(now), run(1));
    assert_eq!(host_mutex_lock(&mut env, m), Ok(Ok(1)));
    let sleep_start = now;
    env.sleep(now, 10);
    // The main thread tries to lock at once and blocks.
    assert_eq!(env.schedule_next_thread(now), run(0));
    assert_eq!(host_mutex_lock(&mut env, m), Ok(Ok(1)));
    assert_eq!(env.thread(0).blocked_by, ThreadBlock::Mutex(m));
    assert_eq!(env.mutex(m).unwrap().locked, Some((1, 1)));
    // Nothing can run until A's sleep is over.
    let mut acquired_at = None;
    loop {
        match env.schedule_next_thread(now) {
            Ok(ScheduleOutcome::Idle { until }) => {
                assert_eq!(until, sleep_start + 10);
                assert!(until > now);
                assert_eq!(env.mutex(m).unwrap().locked, Some((1, 1)));
                // Time passes in small steps.
                now += 3;
                if now > until {
                    now = until;
                }
            }
            Ok(ScheduleOutcome::Run { thread: 1, join_result: None }) => {
                // A wakes up and unlocks.
                assert_eq!(host_mutex_unlock(&mut env, m), Ok(Ok(0)));
            }
            Ok(ScheduleOutcome::Run { thread: 0, join_result: None }) => {
                acquired_at = Some(now);
                break;
            }
            other => panic!("unexpected outcome {:?}", other),
        }
    }
    assert!(acquired_at.unwrap() >= sleep_start + 10);
    assert_eq!(env.thread(0).blocked_by, ThreadBlock::NotBlocked);
    assert_eq!(
        env.mutex(m),
        Some(MutexHostObject {
            type_: MutexType::PTHREAD_MUTEX_NORMAL,
            waiting_count: 0,
            locked: Some((0, 1)),
        })
    );
}

#[test]
fn one_of_two_waiters_gets_the_mutex_and_the_other_keeps_waiting() {
    let mut env = engine();
    let m = host_mutex_init(&mut env, MutexType::PTHREAD_MUTEX_RECURSIVE);
    spawn(&mut env, 2);
    assert_eq!(host_mutex_lock(&mut env, m), Ok(Ok(1)));
    assert_eq!(env.schedule_next_thread(0), run(1));
    assert_eq!(host_mutex_lock(&mut env, m), Ok(Ok(1)));
    assert_eq!(env.schedule_next_thread(0), run(2));
    assert_eq!(host_mutex_lock(&mut env, m), Ok(Ok(1)));
    assert_eq!(env.mutex(m).unwrap().waiting_count, 2);
    assert_eq!(env.schedule_next_thread(0), run(0));
    assert_eq!(host_mutex_unlock(&mut env, m), Ok(Ok(0)));
    // Thread 1 is scanned first and takes the mutex.
    assert_eq!(env.schedule_next_thread(0), run(1));
    assert_eq!(
        env.mutex(m),
        Some(MutexHostObject {
            type_: MutexType::PTHREAD_MUTEX_RECURSIVE,
            waiting_count: 1,
            locked: Some((1, 1)),
        })
    );
    // Thread 2 still waits; the main thread runs next.
    assert_eq!(env.schedule_next_thread(0), run(0));
    assert_eq!(env.thread(2).blocked_by, ThreadBlock::Mutex(m));
    assert_eq!(env.schedule_next_thread(0), run(1));
    assert_eq!(host_mutex_unlock(&mut env, m), Ok(Ok(0)));
    assert_eq!(env.schedule_next_thread(0), run(2));
    assert_eq!(env.mutex(m).unwrap().locked, Some((2, 1)));
    assert_eq!(env.mutex(m).unwrap().waiting_count, 0);
}
