//! The address space of a process: page-table handle, stack and heap.

use vstd::prelude::*;
use crate::heap::{end_in_range, BrkOutcome, Heap, HeapEnds};
use crate::memory::{PageSpan, PageTableContext};
use crate::pid::ProcessId;
use crate::stack::{pid_slot, Stack, STACK_DEF_SIZE, STACK_LOWEST, STACK_MAX};

verus! {

/// Largest amount of code, in bytes, that an address space accounts for.
pub const CODE_MAX: u64 = 0x0000_2000_0000_0000;

/// What the image loader reports about an executable it has placed in memory.
#[derive(Clone, Copy, Debug, PartialEq, Eq, Structural)]
pub struct LoadedImage {
    /// Address of the first instruction.
    pub entry: u64,
    /// Bytes of memory that the image occupies.
    pub code_bytes: u64,
}

/// What has to be released when an address space is torn down.
#[derive(Clone, Copy, Debug, PartialEq, Eq, Structural)]
pub struct VmRelease {
    /// The page table in which the pages are mapped.
    pub page_table: PageTableContext,
    /// The pages of the stack.
    pub stack: PageSpan,
    /// The pages of the heap, unless the heap was empty.
    pub heap: Option<PageSpan>,
}

/// The address space of one process.
#[derive(Clone, Copy, Debug, PartialEq, Eq, Structural)]
pub struct ProcessVm {
    /// Handle of the page table that holds the mappings.
    pub page_table: PageTableContext,
    /// The stack region.
    pub stack: Stack,
    /// The heap region; its end is shared with the rest of the fork lineage.
    pub heap: Heap,
    /// Bytes of code loaded into the address space.
    pub code_usage: u64,
}

impl ProcessVm {
    /// Stack and heap are well formed and the code size is within bounds.
    pub open spec fn wf(&self, ends: &HeapEnds) -> bool {
        &&& self.stack.wf()
        &&& self.heap.wf(ends)
        &&& self.code_usage <= CODE_MAX
    }

    /// Bytes of memory in use: code, stack and heap.
    pub open spec fn usage(&self, ends: &HeapEnds) -> int {
        self.code_usage + self.stack.usage() + (self.heap.end(ends) - self.heap.base)
    }

    /// The address space of a forked child.
    pub open spec fn forked(&self, stack_offset_count: u64, page_table: PageTableContext) -> Self {
        ProcessVm {
            page_table,
            stack: self.stack.lowered(stack_offset_count + 1),
            heap: self.heap,
            code_usage: 0,
        }
    }

    /// An address space with no stack and no code yet, and an empty heap of its own.
    pub fn new(page_table: PageTableContext, ends: &mut HeapEnds) -> (vm: Self)
        requires
            old(ends).wf(),
        ensures
            final(ends).wf(),
            final(ends)@ == old(ends)@.push(crate::heap::HEAP_START),
            vm.wf(final(ends)),
            vm.page_table == page_table,
            vm.stack == Stack::vacant(0),
            vm.heap == (Heap { base: crate::heap::HEAP_START, cell: old(ends)@.len() as usize }),
            vm.code_usage == 0,
    {
        let heap = Heap::empty(ends);
        ProcessVm { page_table, stack: Stack::empty(), heap, code_usage: 0 }
    }

    /// Turns the address space into the kernel's: the stack is the kernel stack.
    pub fn init_kernel_vm(self) -> (vm: Self)
        ensures
            vm == (ProcessVm { stack: Stack::kernel(), ..self }),
            vm.stack.wf(),
    {
        let mut vm = self;
        vm.stack = Stack::kstack();
        vm
    }

    /// Records a loaded image and sets up the initial stack of process `pid`
    /// in the window that the identifier selects.
    ///
    /// Returns the stack pages that have to be backed with frames, or `None`,
    /// with nothing changed, when `pid` selects no window or the image is
    /// larger than [`CODE_MAX`].
    pub fn load_elf(&mut self, image: &LoadedImage, pid: ProcessId) -> (stack: Option<PageSpan>)
        ensures
            stack.is_some() == (pid_slot(pid).is_some() && image.code_bytes <= CODE_MAX),
            stack matches Some(span) ==> {
                &&& final(self).page_table == old(self).page_table
                &&& final(self).heap == old(self).heap
                &&& final(self).code_usage == image.code_bytes
                &&& final(self).stack.wf()
                &&& final(self).stack.window_low() == Stack::vacant(
                    pid_slot(pid).unwrap(),
                ).window_low()
                &&& final(self).stack.usage() == STACK_DEF_SIZE
                &&& final(self).stack.window_high() <= STACK_MAX
                &&& final(self).stack.window_low() >= STACK_LOWEST
                &&& span == final(self).stack.span()
                &&& span.wf()
            },
            stack.is_none() ==> *final(self) == *old(self),
    {
        if image.code_bytes > CODE_MAX {
            return None;
        }
        match Stack::for_pid(pid) {
            Some(mut stack) => {
                let span = stack.init();
                self.stack = stack;
                self.code_usage = image.code_bytes;
                span
            },
            None => None,
        }
    }

    /// Decides a page fault at `addr`; see [`Stack::handle_page_fault`].
    pub fn handle_page_fault(&mut self, addr: u64) -> (grown: Option<PageSpan>)
        requires
            old(self).stack.wf(),
        ensures
            final(self).stack.wf(),
            final(self).page_table == old(self).page_table,
            final(self).heap == old(self).heap,
            final(self).code_usage == old(self).code_usage,
            grown.is_some() == old(self).stack.grows_at(addr),
            grown matches Some(span) ==> {
                &&& final(self).stack == old(self).stack.grown_to(addr)
                &&& span.wf()
                &&& span.start == crate::memory::page_floor(addr)
                &&& span.end() == old(self).stack.low()
                &&& span.covers(addr)
            },
            grown.is_none() ==> *final(self) == *old(self),
    {
        self.stack.handle_page_fault(addr)
    }

    /// The address space of a forked child, in the page table `page_table`
    /// that the embedding kernel has forked from this one.
    ///
    /// The stack is a copy `stack_offset_count + 1` windows further down, the
    /// heap shares its end with this one, and no code is accounted for.
    /// `None` when there is no window for the stack; see [`Stack::fork`].
    pub fn fork(&self, stack_offset_count: u64, page_table: PageTableContext) -> (child: Option<
        Self,
    >)
        requires
            self.stack.wf(),
        ensures
            child == (if self.stack.can_lower(stack_offset_count + 1) {
                Some(self.forked(stack_offset_count, page_table))
            } else {
                None
            }),
            child matches Some(vm) ==> vm.stack.wf() && vm.stack.usage() == self.stack.usage(),
    {
        match self.stack.fork(stack_offset_count) {
            Some(stack) => Some(
                ProcessVm { page_table, stack, heap: self.heap.fork(), code_usage: 0 },
            ),
            None => None,
        }
    }

    /// Answers a `brk` request; see [`Heap::brk`].
    pub fn brk(&self, new_end: Option<u64>, ends: &HeapEnds) -> (outcome: BrkOutcome)
        requires
            ends.wf(),
            self.heap.wf(ends),
        ensures
            outcome == self.heap.brk_outcome(self.heap.end(ends), new_end),
    {
        self.heap.brk(new_end, ends)
    }

    /// Records a new heap end; see [`Heap::commit`].
    pub fn commit_brk(&self, new_end: u64, ends: &mut HeapEnds) -> (end: u64)
        requires
            old(ends).wf(),
            self.heap.wf(old(ends)),
            end_in_range(self.heap.base, new_end),
        ensures
            final(ends).wf(),
            final(ends)@ == old(ends)@.update(self.heap.cell as int, new_end),
            end == new_end,
    {
        self.heap.commit(new_end, ends)
    }

    /// Empties the heap and lists everything that has to be unmapped when the
    /// address space goes away.
    pub fn clean_up(&self, ends: &mut HeapEnds) -> (release: VmRelease)
        requires
            old(ends).wf(),
            self.wf(old(ends)),
        ensures
            final(ends).wf(),
            final(ends)@ == old(ends)@.update(self.heap.cell as int, self.heap.base),
            release.page_table == self.page_table,
            release.stack == self.stack.span(),
            release.heap == (if self.heap.end(old(ends)) == self.heap.base {
                None
            } else {
                Some(
                    PageSpan {
                        start: self.heap.base,
                        count: self.heap.pages_to(self.heap.end(old(ends))),
                    },
                )
            }),
    {
        let heap = self.heap.clean_up(ends);
        VmRelease { page_table: self.page_table, stack: self.stack.pages(), heap }
    }

    /// Bytes of memory in use: code, stack and heap.
    pub fn memory_usage(&self, ends: &HeapEnds) -> (bytes: u64)
        requires
            ends.wf(),
            self.wf(ends),
        ensures
            bytes == self.usage(ends),
    {
        self.code_usage + self.stack.memory_usage() + self.heap.memory_usage(ends)
    }
}

} // verus!
