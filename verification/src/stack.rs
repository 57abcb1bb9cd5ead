//! The stack region of an address space.
//!
//! Every stack lives in a reserved window of [`STACK_MAX_SIZE`] bytes and grows
//! downwards from the top of that window. The lower bound of the window is a
//! guard: the region never reaches below it.

use vstd::prelude::*;
use crate::memory::{is_page_aligned, page_floor, page_start, PageSpan, PAGE_SIZE};
use crate::pid::ProcessId;

verus! {

/// First address above the user stack windows.
pub const STACK_MAX: u64 = 0x0000_4000_0000_0000;

/// Pages in one stack window.
pub const STACK_MAX_PAGES: u64 = 0x100000;

/// Bytes in one stack window.
pub const STACK_MAX_SIZE: u64 = 0x1_0000_0000;

/// Pages mapped for a fresh user stack.
pub const STACK_DEF_PAGE: u64 = 1;

/// Bytes mapped for a fresh user stack.
pub const STACK_DEF_SIZE: u64 = 0x1000;

/// Lowest mapped address of a fresh stack in the topmost window.
pub const STACK_INIT_BOT: u64 = 0x3fff_ffff_f000;

/// Initial stack pointer of a fresh stack in the topmost window.
pub const STACK_INIT_TOP: u64 = 0x3fff_ffff_fff8;

/// Number of user stack windows: they fill the space between the end of the
/// heap region and [`STACK_MAX`].
pub const STACK_SLOTS: u64 = 0x1fff;

/// Lower bound of the lowest user stack window.
pub const STACK_LOWEST: u64 = 0x2001_0000_0000;

/// First address above the kernel stack window.
pub const KSTACK_MAX: u64 = 0xffff_ff02_0000_0000;

/// Pages mapped for the kernel stack.
pub const KSTACK_DEF_PAGE: u64 = 4096;

/// Bytes mapped for the kernel stack.
pub const KSTACK_DEF_SIZE: u64 = 0x100_0000;

/// Lowest mapped address of the kernel stack.
pub const KSTACK_INIT_BOT: u64 = 0xffff_ff01_ff00_0000;

/// Initial stack pointer of the kernel stack.
pub const KSTACK_INIT_TOP: u64 = 0xffff_ff01_ffff_fff8;

/// Distance between the top of a stack window and the initial stack pointer.
pub const STACK_TOP_GAP: u64 = 8;

/// Lower bound of user stack window number `slot`, counted downwards from [`STACK_MAX`].
pub open spec fn window_floor(slot: u64) -> int {
    STACK_MAX - (slot + 1) * STACK_MAX_SIZE
}

/// The window that a process identifier selects, if it selects one: the
/// identifiers from 2 upwards take the windows from the top downwards.
pub open spec fn pid_slot(pid: ProcessId) -> Option<u64> {
    if 2 <= pid.0 && pid.0 - 2 < STACK_SLOTS {
        Some((pid.0 - 2) as u64)
    } else {
        None
    }
}

/// A stack region: the pages from `low` up to the top of its window.
#[derive(Clone, Copy, Debug, PartialEq, Eq, Structural)]
pub struct Stack {
    /// Lower bound of the reserved window.
    pub floor: u64,
    /// Lowest mapped address.
    pub low: u64,
}

impl Stack {
    /// Lower bound of the reserved window; faults below it are never stack faults.
    pub open spec fn window_low(&self) -> u64 {
        self.floor
    }

    /// First address above the reserved window, where the stack starts to grow.
    pub open spec fn window_high(&self) -> int {
        self.window_low() + STACK_MAX_SIZE
    }

    /// Lowest mapped address of the stack.
    pub open spec fn low(&self) -> u64 {
        self.low
    }

    /// The region is page aligned and stays inside its window, and the window
    /// lies in one canonical half of the address space.
    pub open spec fn wf(&self) -> bool {
        &&& is_page_aligned(self.window_low())
        &&& is_page_aligned(self.low())
        &&& self.window_low() <= self.low() <= self.window_high()
        &&& (self.window_high() <= 0x0000_8000_0000_0000 || self.window_low()
            >= 0xffff_8000_0000_0000)
        &&& self.window_high() <= u64::MAX
    }

    /// Bytes currently mapped.
    pub open spec fn usage(&self) -> int {
        self.window_high() - self.low()
    }

    /// The mapped pages.
    pub open spec fn span(&self) -> PageSpan {
        PageSpan { start: self.low(), count: (self.usage() / (PAGE_SIZE as int)) as u64 }
    }

    /// Whether a fault at `addr` asks for growth: the address is inside the
    /// window and below everything mapped so far.
    pub open spec fn grows_at(&self, addr: u64) -> bool {
        self.window_low() <= addr < self.low()
    }

    /// The stack after it has grown down to the page of `addr`.
    pub open spec fn grown_to(&self, addr: u64) -> Self {
        Stack { floor: self.window_low(), low: page_floor(addr) }
    }

    /// An unmapped stack in user window `slot`.
    pub open spec fn vacant(slot: u64) -> Self {
        Stack { floor: window_floor(slot) as u64, low: (window_floor(slot) + STACK_MAX_SIZE) as u64 }
    }

    /// The kernel's own stack, fully mapped from the start.
    pub open spec fn kernel() -> Self {
        Stack { floor: (KSTACK_MAX - STACK_MAX_SIZE) as u64, low: KSTACK_INIT_BOT }
    }

    /// The copy that `fork` places `windows` windows further down.
    pub open spec fn lowered(&self, windows: int) -> Self {
        Stack {
            floor: (self.window_low() - windows * STACK_MAX_SIZE) as u64,
            low: (self.low() - windows * STACK_MAX_SIZE) as u64,
        }
    }

    /// Whether a copy `windows` windows further down is still a user stack window.
    pub open spec fn can_lower(&self, windows: int) -> bool {
        &&& self.window_high() <= STACK_MAX
        &&& self.window_low() - windows * STACK_MAX_SIZE >= STACK_LOWEST
    }

    /// An unmapped stack in the topmost user window.
    pub fn empty() -> (stack: Self)
        ensures
            stack == Self::vacant(0),
            stack.wf(),
            stack.usage() == 0,
    {
        Stack { floor: STACK_MAX - STACK_MAX_SIZE, low: STACK_MAX }
    }

    /// An unmapped stack in user window `slot`.
    pub fn in_window(slot: u64) -> (stack: Self)
        requires
            slot < STACK_SLOTS,
        ensures
            stack == Self::vacant(slot),
            stack.wf(),
            stack.usage() == 0,
            stack.window_low() >= STACK_LOWEST,
            stack.window_high() <= STACK_MAX,
    {
        let top = STACK_MAX - slot * STACK_MAX_SIZE;
        Stack { floor: top - STACK_MAX_SIZE, low: top }
    }

    /// An unmapped stack in the window that `pid` selects; `None` for the
    /// identifiers that select none.
    pub fn for_pid(pid: ProcessId) -> (stack: Option<Self>)
        ensures
            stack == match pid_slot(pid) {
                Some(slot) => Some(Self::vacant(slot)),
                None => None,
            },
            stack matches Some(s) ==> s.wf() && s.usage() == 0 && s.window_high() <= STACK_MAX
                && s.window_low() >= STACK_LOWEST,
    {
        if pid.0 >= 2 {
            let slot: u64 = (pid.0 - 2) as u64;
            if slot < STACK_SLOTS {
                return Some(Self::in_window(slot));
            }
        }
        None
    }

    /// The kernel's own stack.
    pub fn kstack() -> (stack: Self)
        ensures
            stack == Self::kernel(),
            stack.wf(),
            stack.usage() == KSTACK_DEF_SIZE,
    {
        Stack { floor: KSTACK_MAX - STACK_MAX_SIZE, low: KSTACK_INIT_BOT }
    }

    /// Maps the default pages of a stack that has none yet, and returns the
    /// pages that have to be backed with frames. A stack that has pages
    /// already stays as it is, and the result is `None`.
    pub fn init(&mut self) -> (mapped: Option<PageSpan>)
        requires
            old(self).wf(),
        ensures
            final(self).wf(),
            final(self).window_low() == old(self).window_low(),
            mapped.is_some() == (old(self).usage() == 0),
            mapped matches Some(span) ==> {
                &&& final(self).low() == old(self).low() - STACK_DEF_SIZE
                &&& span == final(self).span()
                &&& span.wf()
                &&& span.count == STACK_DEF_PAGE
            },
            mapped.is_none() ==> *final(self) == *old(self),
    {
        if self.low - self.floor != STACK_MAX_SIZE {
            return None;
        }
        self.low = self.low - STACK_DEF_SIZE;
        Some(PageSpan { start: self.low, count: STACK_DEF_PAGE })
    }

    /// Initial stack pointer: just below the top of the window.
    pub fn init_top(&self) -> (top: u64)
        requires
            self.wf(),
        ensures
            top == self.window_high() - STACK_TOP_GAP,
    {
        self.floor + (STACK_MAX_SIZE - STACK_TOP_GAP)
    }

    /// Whether `addr` lies in the reserved window of this stack.
    pub fn is_on_stack(&self, addr: u64) -> (inside: bool)
        requires
            self.wf(),
        ensures
            inside == (self.window_low() <= addr < self.window_high()),
    {
        self.floor <= addr && addr - self.floor < STACK_MAX_SIZE
    }

    /// Decides a page fault at `addr`.
    ///
    /// The fault is resolved exactly when `addr` lies in the window below the
    /// mapped region. The stack then reaches down to the page of `addr`, and
    /// the pages between that page and the old low edge are returned: they
    /// have to be backed with frames. Any other fault leaves the stack as it
    /// is and returns `None`.
    pub fn handle_page_fault(&mut self, addr: u64) -> (grown: Option<PageSpan>)
        requires
            old(self).wf(),
        ensures
            final(self).wf(),
            grown.is_some() == old(self).grows_at(addr),
            grown matches Some(span) ==> {
                &&& *final(self) == old(self).grown_to(addr)
                &&& span.wf()
                &&& span.start == page_floor(addr)
                &&& span.end() == old(self).low()
                &&& span.covers(addr)
            },
            grown.is_none() ==> *final(self) == *old(self),
    {
        if self.floor <= addr && addr < self.low {
            let new_low = page_start(addr);
            let span = PageSpan::between(new_low, self.low);
            self.low = new_low;
            Some(span)
        } else {
            None
        }
    }

    /// Bytes currently mapped.
    pub fn memory_usage(&self) -> (bytes: u64)
        requires
            self.wf(),
        ensures
            bytes == self.usage(),
    {
        self.floor + STACK_MAX_SIZE - self.low
    }

    /// The mapped pages.
    pub fn pages(&self) -> (span: PageSpan)
        requires
            self.wf(),
        ensures
            span == self.span(),
            span.wf(),
            span.end() == self.window_high(),
    {
        PageSpan::between(self.low, self.floor + STACK_MAX_SIZE)
    }

    /// The stack of a forked child: a copy of this one, `stack_offset_count + 1`
    /// windows further down, so that children forked with different counts
    /// get different windows.
    ///
    /// Returns `None` when this is not a user stack or when the address space
    /// has no window left that far down.
    pub fn fork(&self, stack_offset_count: u64) -> (child: Option<Self>)
        requires
            self.wf(),
        ensures
            child == (if self.can_lower(stack_offset_count + 1) {
                Some(self.lowered(stack_offset_count + 1))
            } else {
                None
            }),
            child matches Some(c) ==> c.wf() && c.usage() == self.usage() && c.window_high()
                <= STACK_MAX && c.window_low() >= STACK_LOWEST,
    {
        if self.floor > STACK_MAX - STACK_MAX_SIZE || stack_offset_count >= STACK_SLOTS {
            return None;
        }
        let shift: u64 = (stack_offset_count + 1) * STACK_MAX_SIZE;
        if self.floor < STACK_LOWEST || self.floor - STACK_LOWEST < shift {
            return None;
        }
        Some(Stack { floor: self.floor - shift, low: self.low - shift })
    }

    /// Distance in bytes from this stack up to `old_stack`, modulo 2^64: what
    /// has to be taken off a stack pointer into `old_stack` to point to the same
    /// place in this one.
    pub fn stack_offset(&self, old_stack: &Stack) -> (offset: u64)
        ensures
            offset == old_stack.low().wrapping_sub(self.low()),
    {
        old_stack.low.wrapping_sub(self.low)
    }
}

} // verus!
