//! The decisions of a best-effort stack walk.
//!
//! A walk starts from the live registers and follows the chain of frame
//! pointers through the running thread's stack. Reading guest memory and
//! printing are the caller's part; what each return address means, and
//! whether the walk goes on, is decided here.

use vstd::prelude::*;
use crate::cpu::{GuestFunction, FRAME_POINTER, LR};
use crate::environment::{Environment, EnvironmentView, ThreadID};

verus! {

/// What a return address found during a stack walk stands for.
#[derive(Clone, Copy, Debug, PartialEq, Eq)]
pub enum StackFrame {
    /// The caller is host code: the address is the return-to-host
    /// trampoline. The walk ends here.
    HostFunction,
    /// The bottom of a thread's start routine: the address is the
    /// thread-exit trampoline. The walk ends here.
    ThreadExit,
    /// A guest function at the given address.
    Guest(u32),
}

/// How a stack walk goes on after a frame.
#[derive(Clone, Copy, Debug, PartialEq, Eq)]
pub enum TraceStep {
    /// The walk is over.
    Done,
    /// The walk is over because the next frame pointer, which is given, does
    /// not point into the thread's stack.
    OutsideStack(u32),
    /// The next frame record is to be read from guest memory: the caller's
    /// frame pointer at `fp_addr` and the return address at `lr_addr`.
    ReadFrame { fp_addr: u32, lr_addr: u32 },
}

/// The first two lines of a stack walk and how it goes on.
#[derive(Clone, Copy, Debug, PartialEq, Eq)]
pub struct StackTraceStart {
    /// The thread being walked.
    pub thread: ThreadID,
    /// The address of the current instruction, with the Thumb bit.
    pub pc: GuestFunction,
    /// What the link register stands for.
    pub lr: StackFrame,
    /// How the walk goes on.
    pub next: TraceStep,
}

impl EnvironmentView {
    /// What the return address `lr` stands for.
    pub open spec fn frame_of(self, lr: u32) -> StackFrame {
        if lr == self.return_to_host_routine.bits {
            StackFrame::HostFunction
        } else if lr == self.thread_exit_routine.bits {
            StackFrame::ThreadExit
        } else {
            StackFrame::Guest(lr)
        }
    }

    /// Whether `fp` points into the running thread's stack.
    pub open spec fn in_stack(self, fp: u32) -> bool {
        let bounds = self.current().stack->0;
        bounds.0 <= fp <= bounds.1
    }

    /// How a stack walk goes on after a frame that returns to `lr` and whose
    /// caller has the frame pointer `fp`: it ends at either trampoline and
    /// at a frame pointer outside the stack, and reads the frame record at
    /// `fp` otherwise. The return address is the word behind the caller's
    /// frame pointer; the address of that word wraps around at the end of
    /// the address space.
    pub open spec fn trace_step(self, lr: u32, fp: u32) -> TraceStep {
        if !(self.frame_of(lr) is Guest) {
            TraceStep::Done
        } else if !self.in_stack(fp) {
            TraceStep::OutsideStack(fp)
        } else {
            TraceStep::ReadFrame { fp_addr: fp, lr_addr: if fp + 4 <= u32::MAX {
                (fp + 4) as u32
            } else {
                (fp + 4 - 0x1_0000_0000) as u32
            } }
        }
    }
}

impl Environment {
    /// Tells what the return address `lr` stands for.
    pub fn classify_return_address(&self, lr: u32) -> (frame: StackFrame)
        ensures
            frame == self@.frame_of(lr),
    {
        if lr == self.return_to_host_routine.addr_with_thumb_bit() {
            StackFrame::HostFunction
        } else if lr == self.thread_exit_routine.addr_with_thumb_bit() {
            StackFrame::ThreadExit
        } else {
            StackFrame::Guest(lr)
        }
    }

    /// Decides how a stack walk goes on after a frame that returns to `lr`
    /// and whose caller has the frame pointer `fp`.
    fn stack_trace_step(&self, lr: u32, fp: u32) -> (step: TraceStep)
        requires
            self@.current_thread < self@.threads.len(),
            self@.current().stack is Some,
        ensures
            step == self@.trace_step(lr, fp),
    {
        if lr == self.return_to_host_routine.addr_with_thumb_bit() || lr
            == self.thread_exit_routine.addr_with_thumb_bit() {
            return TraceStep::Done;
        }
        let stack_range = self.threads[self.current_thread].stack.unwrap();
        if !(stack_range.0 <= fp && fp <= stack_range.1) {
            return TraceStep::OutsideStack(fp);
        }
        TraceStep::ReadFrame { fp_addr: fp, lr_addr: fp.wrapping_add(4) }
    }

    /// Starts a stack walk of the running thread from the live registers:
    /// the program counter, what the link register stands for, and how the
    /// walk goes on from the frame pointer.
    pub fn stack_trace(&self) -> (start: StackTraceStart)
        requires
            self@.current_thread < self@.threads.len(),
            self@.current().stack is Some,
        ensures
            start == (StackTraceStart {
                thread: self@.current_thread,
                pc: self@.cpu.spec_pc_with_thumb_bit(),
                lr: self@.frame_of(self@.cpu.regs[LR as int]),
                next: self@.trace_step(
                    self@.cpu.regs[LR as int],
                    self@.cpu.regs[FRAME_POINTER as int],
                ),
            }),
    {
        let lr = self.cpu.regs[LR];
        let fp = self.cpu.regs[FRAME_POINTER];
        StackTraceStart {
            thread: self.current_thread,
            pc: self.cpu.pc_with_thumb_bit(),
            lr: self.classify_return_address(lr),
            next: self.stack_trace_step(lr, fp),
        }
    }

    /// Continues a stack walk with the frame record that was read from guest
    /// memory: `lr` is the return address found in it and `fp` the caller's
    /// frame pointer. Returns what the return address stands for and how the
    /// walk goes on.
    pub fn stack_trace_next(&self, lr: u32, fp: u32) -> (res: (StackFrame, TraceStep))
        requires
            self@.current_thread < self@.threads.len(),
            self@.current().stack is Some,
        ensures
            res == (self@.frame_of(lr), self@.trace_step(lr, fp)),
    {
        (self.classify_return_address(lr), self.stack_trace_step(lr, fp))
    }
}

} // verus!
