//! The system calls by number, and the arguments a system call carries.

use vstd::prelude::*;

verus! {

/// The system calls.
#[derive(Clone, Copy, Debug, PartialEq, Eq, Structural)]
pub enum Syscall {
    Read,
    Write,
    GetPid,
    Fork,
    Spawn,
    Exit,
    WaitPid,
    Kill,
    Sem,
    Time,
    ListApp,
    Stat,
    Allocate,
    Deallocate,
    /// Every number that names no other system call.
    Unknown,
}

/// The number that stands for a system call in the trap interface.
pub open spec fn syscall_number(syscall: Syscall) -> usize {
    match syscall {
        Syscall::Read => 0,
        Syscall::Write => 1,
        Syscall::GetPid => 39,
        Syscall::Fork => 58,
        Syscall::Spawn => 59,
        Syscall::Exit => 60,
        Syscall::WaitPid => 61,
        Syscall::Kill => 62,
        Syscall::Sem => 63,
        Syscall::Time => 201,
        Syscall::ListApp => 65529,
        Syscall::Stat => 65530,
        Syscall::Allocate => 65533,
        Syscall::Deallocate => 65534,
        Syscall::Unknown => 65535,
    }
}

/// The system call that a number stands for.
pub open spec fn syscall_of(number: usize) -> Syscall {
    if number == 0 {
        Syscall::Read
    } else if number == 1 {
        Syscall::Write
    } else if number == 39 {
        Syscall::GetPid
    } else if number == 58 {
        Syscall::Fork
    } else if number == 59 {
        Syscall::Spawn
    } else if number == 60 {
        Syscall::Exit
    } else if number == 61 {
        Syscall::WaitPid
    } else if number == 62 {
        Syscall::Kill
    } else if number == 63 {
        Syscall::Sem
    } else if number == 201 {
        Syscall::Time
    } else if number == 65529 {
        Syscall::ListApp
    } else if number == 65530 {
        Syscall::Stat
    } else if number == 65533 {
        Syscall::Allocate
    } else if number == 65534 {
        Syscall::Deallocate
    } else {
        Syscall::Unknown
    }
}

impl Syscall {
    /// The number that stands for the system call in the trap interface.
    pub fn number(&self) -> (number: usize)
        ensures
            number == syscall_number(*self),
    {
        match self {
            Syscall::Read => 0,
            Syscall::Write => 1,
            Syscall::GetPid => 39,
            Syscall::Fork => 58,
            Syscall::Spawn => 59,
            Syscall::Exit => 60,
            Syscall::WaitPid => 61,
            Syscall::Kill => 62,
            Syscall::Sem => 63,
            Syscall::Time => 201,
            Syscall::ListApp => 65529,
            Syscall::Stat => 65530,
            Syscall::Allocate => 65533,
            Syscall::Deallocate => 65534,
            Syscall::Unknown => 65535,
        }
    }
}

impl From<usize> for Syscall {
    fn from(number: usize) -> (syscall: Syscall) {
        if number == 0 {
            Syscall::Read
        } else if number == 1 {
            Syscall::Write
        } else if number == 39 {
            Syscall::GetPid
        } else if number == 58 {
            Syscall::Fork
        } else if number == 59 {
            Syscall::Spawn
        } else if number == 60 {
            Syscall::Exit
        } else if number == 61 {
            Syscall::WaitPid
        } else if number == 62 {
            Syscall::Kill
        } else if number == 63 {
            Syscall::Sem
        } else if number == 201 {
            Syscall::Time
        } else if number == 65529 {
            Syscall::ListApp
        } else if number == 65530 {
            Syscall::Stat
        } else if number == 65533 {
            Syscall::Allocate
        } else if number == 65534 {
            Syscall::Deallocate
        } else {
            Syscall::Unknown
        }
    }
}

impl vstd::std_specs::convert::FromSpecImpl<usize> for Syscall {
    open spec fn obeys_from_spec() -> bool {
        true
    }

    open spec fn from_spec(number: usize) -> Syscall {
        syscall_of(number)
    }
}

/// Every system call is found again from its number.
pub proof fn lemma_syscall_round_trip(syscall: Syscall)
    ensures
        syscall_of(syscall_number(syscall)) == syscall,
{
}

/// The operations that the `Sem` system call selects with its first argument.
#[derive(Clone, Copy, Debug, PartialEq, Eq, Structural)]
pub enum SemOp {
    /// Create a semaphore; the key and the initial count follow.
    New,
    /// Destroy a semaphore; the key follows.
    Remove,
    /// Give a grant back; the key follows.
    Signal,
    /// Ask for a grant; the key follows.
    Wait,
}

/// The operation that the first argument of a `Sem` call selects, if any.
pub open spec fn sem_op_of(selector: usize) -> Option<SemOp> {
    if selector == 0 {
        Some(SemOp::New)
    } else if selector == 1 {
        Some(SemOp::Remove)
    } else if selector == 2 {
        Some(SemOp::Signal)
    } else if selector == 3 {
        Some(SemOp::Wait)
    } else {
        None
    }
}

impl SemOp {
    /// The first argument of a `Sem` call that selects the operation.
    pub open spec fn selector_of(self) -> usize {
        match self {
            SemOp::New => 0,
            SemOp::Remove => 1,
            SemOp::Signal => 2,
            SemOp::Wait => 3,
        }
    }

    /// The first argument of a `Sem` call that selects the operation.
    pub fn selector(&self) -> (selector: usize)
        ensures
            selector == self.selector_of(),
            sem_op_of(selector) == Some(*self),
    {
        match self {
            SemOp::New => 0,
            SemOp::Remove => 1,
            SemOp::Signal => 2,
            SemOp::Wait => 3,
        }
    }

    /// The operation that the first argument of a `Sem` call selects, if any.
    pub fn decode(selector: usize) -> (op: Option<SemOp>)
        ensures
            op == sem_op_of(selector),
    {
        if selector == 0 {
            Some(SemOp::New)
        } else if selector == 1 {
            Some(SemOp::Remove)
        } else if selector == 2 {
            Some(SemOp::Signal)
        } else if selector == 3 {
            Some(SemOp::Wait)
        } else {
            None
        }
    }
}

/// A system call with its three arguments, as found in the registers.
#[derive(Clone, Copy, Debug, PartialEq, Eq, Structural)]
pub struct SyscallArgs {
    pub syscall: Syscall,
    pub arg0: usize,
    pub arg1: usize,
    pub arg2: usize,
}

impl SyscallArgs {
    pub fn new(syscall: Syscall, arg0: usize, arg1: usize, arg2: usize) -> (args: Self)
        ensures
            args == (SyscallArgs { syscall, arg0, arg1, arg2 }),
    {
        SyscallArgs { syscall, arg0, arg1, arg2 }
    }

    /// The system call that the registers of `context` ask for: the number
    /// in `rax`, the arguments in `rdi`, `rsi` and `rdx`.
    pub fn from_context(context: &crate::context::ProcessContext) -> (args: Self)
        ensures
            args == (SyscallArgs {
                syscall: syscall_of(context.regs.rax),
                arg0: context.regs.rdi,
                arg1: context.regs.rsi,
                arg2: context.regs.rdx,
            }),
    {
        SyscallArgs {
            syscall: Syscall::from(context.regs.rax),
            arg0: context.regs.rdi,
            arg1: context.regs.rsi,
            arg2: context.regs.rdx,
        }
    }
}

} // verus!
