//! The register state of the emulated CPU, as far as the engine reads and
//! writes it, and the outcomes of running it.

use vstd::prelude::*;

verus! {

/// Register number of the frame pointer.
pub const FRAME_POINTER: usize = 7;

/// Register number of the stack pointer.
pub const SP: usize = 13;

/// Register number of the link register.
pub const LR: usize = 14;

/// Register number of the program counter.
pub const PC: usize = 15;

/// Bit of the status register that is set while the CPU executes Thumb code.
pub const CPSR_THUMB: u32 = 0x0000_0020;

/// Bits of the status register that select user mode.
pub const CPSR_USER_MODE: u32 = 0x0000_0010;

/// Address of a guest function. The lowest bit is set when the function is
/// Thumb code; the remaining bits are the address of its first instruction.
#[derive(Clone, Copy, Debug, PartialEq, Eq, Structural)]
pub struct GuestFunction {
    pub bits: u32,
}

impl GuestFunction {
    pub open spec fn spec_is_thumb(self) -> bool {
        self.bits & 1 == 1
    }

    pub open spec fn spec_addr_without_thumb_bit(self) -> u32 {
        self.bits & !1u32
    }

    /// Wraps an address whose lowest bit tells Thumb code from ARM code.
    pub fn from_addr_with_thumb_bit(addr: u32) -> (f: GuestFunction)
        ensures
            f.bits == addr,
    {
        GuestFunction { bits: addr }
    }

    /// The address with the Thumb bit in place.
    pub fn addr_with_thumb_bit(self) -> (addr: u32)
        ensures
            addr == self.bits,
    {
        self.bits
    }

    /// The address of the first instruction.
    #[verifier::when_used_as_spec(spec_addr_without_thumb_bit)]
    pub fn addr_without_thumb_bit(self) -> (addr: u32)
        ensures
            addr == self.spec_addr_without_thumb_bit(),
    {
        self.bits & !1u32
    }

    /// Whether the function is Thumb code.
    #[verifier::when_used_as_spec(spec_is_thumb)]
    pub fn is_thumb(self) -> (thumb: bool)
        ensures
            thumb == self.spec_is_thumb(),
    {
        self.bits & 1 == 1
    }
}

/// A snapshot of the CPU's registers: the live state of the running thread,
/// or the saved state of a thread that is not running.
#[derive(Clone, Copy, Debug)]
pub struct CpuContext {
    /// The sixteen core registers.
    pub regs: [u32; 16],
    /// The status register.
    pub cpsr: u32,
    /// The extension registers of the floating-point unit.
    pub extregs: [u32; 64],
    /// The status register of the floating-point unit.
    pub fpscr: u32,
}

impl CpuContext {
    /// The register state after `self` branched to `new_pc`: the program
    /// counter holds the function's address and the Thumb bit of the status
    /// register follows the function's instruction set.
    pub open spec fn after_branch(self, new_pc: GuestFunction) -> CpuContext {
        CpuContext {
            regs: vstd::array::spec_array_update(
                self.regs,
                PC as int,
                new_pc.spec_addr_without_thumb_bit(),
            ),
            cpsr: if new_pc.spec_is_thumb() {
                self.cpsr | CPSR_THUMB
            } else {
                self.cpsr & !CPSR_THUMB
            },
            ..self
        }
    }

    /// The register state after `self` branched to `new_pc` with `new_lr` as
    /// the return address.
    pub open spec fn after_branch_with_link(
        self,
        new_pc: GuestFunction,
        new_lr: GuestFunction,
    ) -> CpuContext {
        (CpuContext {
            regs: vstd::array::spec_array_update(self.regs, LR as int, new_lr.bits),
            ..self
        }).after_branch(new_pc)
    }

    /// Length in bytes of the instructions the CPU is executing.
    pub open spec fn spec_instruction_len(&self) -> u32 {
        if self.cpsr & CPSR_THUMB != 0 {
            2
        } else {
            4
        }
    }

    /// The address of the current instruction with the Thumb bit of the
    /// status register moved into its lowest bit.
    pub open spec fn spec_pc_with_thumb_bit(&self) -> GuestFunction {
        GuestFunction {
            bits: if self.cpsr & CPSR_THUMB != 0 {
                self.regs[PC as int] | 1
            } else {
                self.regs[PC as int]
            },
        }
    }

    /// The all-zero register state a new thread starts from.
    pub fn new() -> (ctx: CpuContext)
        ensures
            forall|i: int| 0 <= i < 16 ==> ctx.regs[i] == 0,
            forall|i: int| 0 <= i < 64 ==> ctx.extregs[i] == 0,
            ctx.cpsr == 0,
            ctx.fpscr == 0,
    {
        CpuContext { regs: [0u32; 16], cpsr: 0, extregs: [0u32; 64], fpscr: 0 }
    }

    /// Replaces the status register.
    pub fn set_cpsr(&mut self, cpsr: u32)
        ensures
            *final(self) == (CpuContext { cpsr, ..*old(self) }),
    {
        self.cpsr = cpsr;
    }

    /// Continues execution at `new_pc`.
    pub fn branch(&mut self, new_pc: GuestFunction)
        ensures
            *final(self) == old(self).after_branch(new_pc),
    {
        self.regs[PC] = new_pc.addr_without_thumb_bit();
        if new_pc.is_thumb() {
            self.cpsr = self.cpsr | CPSR_THUMB;
        } else {
            self.cpsr = self.cpsr & !CPSR_THUMB;
        }
    }

    /// Continues execution at `new_pc` and arranges that the function
    /// returns to `new_lr`.
    pub fn branch_with_link(&mut self, new_pc: GuestFunction, new_lr: GuestFunction)
        ensures
            *final(self) == old(self).after_branch_with_link(new_pc, new_lr),
    {
        self.regs[LR] = new_lr.addr_with_thumb_bit();
        self.branch(new_pc);
    }

    /// Length in bytes of the instructions the CPU is executing: two in
    /// Thumb mode, four otherwise.
    #[verifier::when_used_as_spec(spec_instruction_len)]
    pub fn instruction_len(&self) -> (len: u32)
        ensures
            len == self.spec_instruction_len(),
    {
        if (self.cpsr & CPSR_THUMB) != 0 {
            2
        } else {
            4
        }
    }

    /// The address of the current instruction, with the lowest bit set when
    /// the CPU is in Thumb mode.
    #[verifier::when_used_as_spec(spec_pc_with_thumb_bit)]
    pub fn pc_with_thumb_bit(&self) -> (f: GuestFunction)
        ensures
            f == self.spec_pc_with_thumb_bit(),
    {
        let pc: u32 = self.regs[PC];
        if (self.cpsr & CPSR_THUMB) != 0 {
            GuestFunction { bits: pc | 1 }
        } else {
            GuestFunction { bits: pc }
        }
    }
}

/// An error that stopped the CPU.
#[derive(Clone, Copy, Debug, PartialEq, Eq, Structural)]
pub enum CpuError {
    /// An access to memory that is not mapped or not permitted.
    MemoryError,
    /// An instruction the CPU does not know.
    UndefinedInstruction,
    /// A breakpoint instruction.
    Breakpoint,
}

/// Why the CPU handed control back to the host.
#[derive(Clone, Copy, Debug, PartialEq, Eq, Structural)]
pub enum CpuState {
    /// The step budget ran out; nothing needs handling.
    Normal,
    /// A supervisor call with the given number was executed.
    Svc(u32),
    /// Execution stopped on an error.
    Error(CpuError),
}

} // verus!
