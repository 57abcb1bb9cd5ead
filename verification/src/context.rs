//! The register snapshot that lets a suspended process resume where it stopped.

use vstd::prelude::*;

verus! {

/// Flags of a freshly started process: interrupts enabled, I/O privilege level 3.
pub const INITIAL_CPU_FLAGS: u64 = 0x3200;

/// Instruction pointer of a context that has not been initialised yet.
pub const IDLE_INSTRUCTION_POINTER: u64 = 0x1000;

/// The general-purpose registers, in the order the trap entry pushes them.
#[derive(Clone, Copy, Debug, PartialEq, Eq, Structural)]
pub struct RegistersValue {
    pub r15: usize,
    pub r14: usize,
    pub r13: usize,
    pub r12: usize,
    pub r11: usize,
    pub r10: usize,
    pub r9: usize,
    pub r8: usize,
    pub rdi: usize,
    pub rsi: usize,
    pub rdx: usize,
    pub rcx: usize,
    pub rbx: usize,
    pub rax: usize,
    pub rbp: usize,
}

/// The part of a trap frame that the processor itself pushes.
#[derive(Clone, Copy, Debug, PartialEq, Eq, Structural)]
pub struct StackFrameValue {
    pub instruction_pointer: u64,
    pub code_segment: u16,
    pub cpu_flags: u64,
    pub stack_pointer: u64,
    pub stack_segment: u16,
}

/// Segment selectors that decide the privilege level a process runs at.
#[derive(Clone, Copy, Debug, PartialEq, Eq, Structural)]
pub struct Selectors {
    pub code: u16,
    pub data: u16,
}

/// Execution state of a process: registers plus trap frame.
#[derive(Clone, Copy, Debug, PartialEq, Eq, Structural)]
pub struct ProcessContext {
    pub regs: RegistersValue,
    pub stack_frame: StackFrameValue,
}

impl RegistersValue {
    /// All registers zero.
    pub open spec fn zeroed() -> Self {
        RegistersValue {
            r15: 0,
            r14: 0,
            r13: 0,
            r12: 0,
            r11: 0,
            r10: 0,
            r9: 0,
            r8: 0,
            rdi: 0,
            rsi: 0,
            rdx: 0,
            rcx: 0,
            rbx: 0,
            rax: 0,
            rbp: 0,
        }
    }

    /// All registers zero.
    pub fn new() -> (regs: Self)
        ensures
            regs == Self::zeroed(),
    {
        RegistersValue {
            r15: 0,
            r14: 0,
            r13: 0,
            r12: 0,
            r11: 0,
            r10: 0,
            r9: 0,
            r8: 0,
            rdi: 0,
            rsi: 0,
            rdx: 0,
            rcx: 0,
            rbx: 0,
            rax: 0,
            rbp: 0,
        }
    }
}

impl ProcessContext {
    /// The context of a process that has never run: zero registers, no stack,
    /// flags cleared, and the instruction pointer parked at
    /// [`IDLE_INSTRUCTION_POINTER`].
    pub open spec fn idle() -> Self {
        ProcessContext {
            regs: RegistersValue::zeroed(),
            stack_frame: StackFrameValue {
                instruction_pointer: IDLE_INSTRUCTION_POINTER,
                code_segment: 0,
                cpu_flags: 0,
                stack_pointer: 0,
                stack_segment: 0,
            },
        }
    }

    /// What [`ProcessContext::init_stack_frame`] leaves behind.
    pub open spec fn started(self, entry: u64, stack_top: u64, selectors: Selectors) -> Self {
        ProcessContext {
            regs: self.regs,
            stack_frame: StackFrameValue {
                instruction_pointer: entry,
                code_segment: selectors.code,
                cpu_flags: INITIAL_CPU_FLAGS,
                stack_pointer: stack_top,
                stack_segment: selectors.data,
            },
        }
    }

    /// The context with `value` in the return-value register.
    pub open spec fn with_rax(self, value: usize) -> Self {
        ProcessContext { regs: RegistersValue { rax: value, ..self.regs }, stack_frame: self.stack_frame }
    }

    /// The context with its stack pointer moved down by `offset` bytes, modulo 2^64.
    pub open spec fn rebased(self, offset: u64) -> Self {
        ProcessContext {
            regs: self.regs,
            stack_frame: StackFrameValue {
                stack_pointer: self.stack_frame.stack_pointer.wrapping_sub(offset),
                ..self.stack_frame
            },
        }
    }

    /// Captures the state of an interrupted process from the trap frame `context`.
    pub fn save(&mut self, context: &ProcessContext)
        ensures
            *final(self) == *context,
    {
        *self = *context;
    }

    /// Writes the stored state into the trap frame `context`, so that the trap
    /// return resumes this process.
    pub fn restore(&self, context: &mut ProcessContext)
        ensures
            *final(context) == *self,
    {
        *context = *self;
    }

    /// Prepares a first entry at `entry` on an empty stack that ends at
    /// `stack_top`, at the privilege level given by `selectors`.
    pub fn init_stack_frame(&mut self, entry: u64, stack_top: u64, selectors: Selectors)
        ensures
            *final(self) == old(self).started(entry, stack_top, selectors),
    {
        self.stack_frame.stack_pointer = stack_top;
        self.stack_frame.instruction_pointer = entry;
        self.stack_frame.cpu_flags = INITIAL_CPU_FLAGS;
        self.stack_frame.code_segment = selectors.code;
        self.stack_frame.stack_segment = selectors.data;
    }

    /// Sets the register in which a system call hands its result back.
    pub fn set_rax(&mut self, value: usize)
        ensures
            *final(self) == old(self).with_rax(value),
    {
        self.regs.rax = value;
    }

    /// Moves the stack pointer down by `offset` bytes, wrapping at the end of
    /// the address space, so that it points to the same place in a copy of the
    /// stack that lies `offset` bytes lower.
    pub fn set_stack_offset(&mut self, offset: u64)
        ensures
            *final(self) == old(self).rebased(offset),
    {
        self.stack_frame.stack_pointer = self.stack_frame.stack_pointer.wrapping_sub(offset);
    }
}

impl Default for ProcessContext {
    fn default() -> (context: Self)
        ensures
            context == ProcessContext::idle(),
    {
        ProcessContext {
            regs: RegistersValue::new(),
            stack_frame: StackFrameValue {
                instruction_pointer: IDLE_INSTRUCTION_POINTER,
                code_segment: 0,
                cpu_flags: 0,
                stack_pointer: 0,
                stack_segment: 0,
            },
        }
    }
}

} // verus!
