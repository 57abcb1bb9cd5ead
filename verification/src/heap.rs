//! The heap region of an address space: a fixed base and a movable end.
//!
//! The end of a heap is not stored in the heap itself but in a cell of a
//! [`HeapEnds`] table, so that the heaps of a fork lineage can share it: a
//! forked heap names the same cell as its parent, and either of them moves the
//! end for both.

use vstd::prelude::*;
use crate::memory::{page_start, pages_covering, MemoryAction, PageSpan, PAGE_SIZE};

verus! {

/// Base address of every user heap.
pub const HEAP_START: u64 = 0x2000_0000_0000;

/// Pages a heap may grow to.
pub const HEAP_PAGES: u64 = 0x100000;

/// Bytes a heap may grow to.
pub const HEAP_SIZE: u64 = 0x1_0000_0000;

/// Last address at which an eight-byte value still fits into a full heap.
pub const HEAP_END: u64 = 0x2000_ffff_fff8;

/// Whether `end` is an admissible end for a heap that starts at `base`.
pub open spec fn end_in_range(base: u64, end: u64) -> bool {
    base <= end <= base + HEAP_SIZE
}

/// The table of heap ends. A cell is shared by all heaps that name it.
pub struct HeapEnds {
    cells: Vec<u64>,
}

impl View for HeapEnds {
    type V = Seq<u64>;

    closed spec fn view(&self) -> Seq<u64> {
        self.cells@
    }
}

impl HeapEnds {
    /// Every recorded end is an admissible end of a heap based at [`HEAP_START`].
    pub open spec fn wf(&self) -> bool {
        forall|i: int| 0 <= i < self@.len() ==> end_in_range(HEAP_START, #[trigger] self@[i])
    }

    /// A table without cells.
    pub fn new() -> (ends: Self)
        ensures
            ends@ == Seq::<u64>::empty(),
            ends.wf(),
    {
        HeapEnds { cells: Vec::new() }
    }

    /// Number of cells.
    pub fn len(&self) -> (n: usize)
        ensures
            n == self@.len(),
    {
        self.cells.len()
    }
}

/// What a `brk` request asks the embedding kernel to do.
#[derive(Clone, Copy, Debug, PartialEq, Eq, Structural)]
pub enum BrkOutcome {
    /// The request was a query: the current end of the heap.
    Current(u64),
    /// The requested end lies outside the heap's range; nothing may change.
    Rejected,
    /// The requested end is admissible. The page-table edit, if there is one,
    /// has to succeed before the new end is recorded with [`Heap::commit`].
    Resize { new_end: u64, action: Option<MemoryAction> },
}

/// A heap region `[base, end)`, with the end held in a shared cell.
#[derive(Clone, Copy, Debug, PartialEq, Eq, Structural)]
pub struct Heap {
    /// First address of the heap.
    pub base: u64,
    /// Index of the cell in [`HeapEnds`] that holds the end.
    pub cell: usize,
}

impl Heap {
    /// The heap is based at [`HEAP_START`] and names an existing cell.
    pub open spec fn wf(&self, ends: &HeapEnds) -> bool {
        &&& self.base == HEAP_START
        &&& self.cell < ends@.len()
    }

    /// Current end of the heap.
    pub open spec fn end(&self, ends: &HeapEnds) -> u64 {
        ends@[self.cell as int]
    }

    /// Pages that cover `[base, end)`.
    pub open spec fn pages_to(&self, end: u64) -> u64 {
        pages_covering((end - self.base) as u64)
    }

    /// The edit that turns the pages covering `[base, from)` into those
    /// covering `[base, to)`: the newly covered pages are mapped, the vacated
    /// ones unmapped, and nothing is done when the page count stays the same.
    pub open spec fn resize_action(&self, from: u64, to: u64) -> Option<MemoryAction> {
        let before = self.pages_to(from);
        let after = self.pages_to(to);
        if after > before {
            Some(
                MemoryAction::MapPages(
                    PageSpan {
                        start: (self.base + before * PAGE_SIZE) as u64,
                        count: (after - before) as u64,
                    },
                ),
            )
        } else if after < before {
            Some(
                MemoryAction::UnmapPages(
                    PageSpan {
                        start: (self.base + after * PAGE_SIZE) as u64,
                        count: (before - after) as u64,
                    },
                ),
            )
        } else {
            None
        }
    }

    /// The answer to a `brk` request, as a function of the heap's current end.
    pub open spec fn brk_outcome(&self, current: u64, new_end: Option<u64>) -> BrkOutcome {
        match new_end {
            None => BrkOutcome::Current(current),
            Some(end) => if end_in_range(self.base, end) {
                BrkOutcome::Resize { new_end: end, action: self.resize_action(current, end) }
            } else {
                BrkOutcome::Rejected
            },
        }
    }

    /// Number of pages that cover `[base, end)`: the pages before the one
    /// that holds `end`, and that page too unless `end` is its first byte.
    fn page_count_to(&self, end: u64) -> (pages: u64)
        requires
            self.base == HEAP_START,
            end_in_range(self.base, end),
        ensures
            pages == self.pages_to(end),
            pages <= HEAP_PAGES,
    {
        let floor = page_start(end);
        let whole = (floor - self.base) / PAGE_SIZE;
        if floor == end {
            whole
        } else {
            whole + 1
        }
    }

    /// A new heap with nothing in it, with a fresh cell of its own.
    pub fn empty(ends: &mut HeapEnds) -> (heap: Self)
        requires
            old(ends).wf(),
        ensures
            final(ends).wf(),
            final(ends)@ == old(ends)@.push(HEAP_START),
            heap.base == HEAP_START,
            heap.cell == old(ends)@.len(),
            heap.wf(final(ends)),
    {
        let cell = ends.cells.len();
        ends.cells.push(HEAP_START);
        assert forall|i: int| 0 <= i < ends@.len() implies end_in_range(
            HEAP_START,
            #[trigger] ends@[i],
        ) by {
            if i < old(ends)@.len() {
                assert(ends@[i] == old(ends)@[i]);
            }
        }
        Heap { base: HEAP_START, cell }
    }

    /// The heap of a forked child: same base, same cell, hence the same end
    /// now and after every later change.
    pub fn fork(&self) -> (child: Self)
        ensures
            child == *self,
    {
        Heap { base: self.base, cell: self.cell }
    }

    /// Current end of the heap.
    pub fn current_end(&self, ends: &HeapEnds) -> (end: u64)
        requires
            self.wf(ends),
        ensures
            end == self.end(ends),
    {
        ends.cells[self.cell]
    }

    /// Answers a `brk` request without changing anything.
    ///
    /// `None` asks for the current end. `Some(end)` asks to move the end: a
    /// value outside `[base, base + HEAP_SIZE]` is rejected, any other is
    /// answered with the page-table edit that the move needs.
    pub fn brk(&self, new_end: Option<u64>, ends: &HeapEnds) -> (outcome: BrkOutcome)
        requires
            ends.wf(),
            self.wf(ends),
        ensures
            outcome == self.brk_outcome(self.end(ends), new_end),
            outcome matches BrkOutcome::Resize { action: Some(MemoryAction::MapPages(span)), .. }
                ==> span.wf() && span.count > 0 && self.base <= span.start && span.end()
                <= self.base + HEAP_SIZE,
            outcome matches BrkOutcome::Resize { action: Some(MemoryAction::UnmapPages(span)), .. }
                ==> span.wf() && span.count > 0 && self.base <= span.start && span.end()
                <= self.base + HEAP_SIZE,
    {
        let current = ends.cells[self.cell];
        match new_end {
            None => BrkOutcome::Current(current),
            Some(end) => {
                if end < self.base || end - self.base > HEAP_SIZE {
                    return BrkOutcome::Rejected;
                }
                let before = self.page_count_to(current);
                let after = self.page_count_to(end);
                let action = if after > before {
                    Some(
                        MemoryAction::MapPages(
                            PageSpan {
                                start: self.base + before * PAGE_SIZE,
                                count: after - before,
                            },
                        ),
                    )
                } else if after < before {
                    Some(
                        MemoryAction::UnmapPages(
                            PageSpan {
                                start: self.base + after * PAGE_SIZE,
                                count: before - after,
                            },
                        ),
                    )
                } else {
                    None
                };
                BrkOutcome::Resize { new_end: end, action }
            },
        }
    }

    /// Records `new_end` as the end of the heap, once the page-table edit that
    /// [`Heap::brk`] asked for has succeeded. Returns the new end.
    pub fn commit(&self, new_end: u64, ends: &mut HeapEnds) -> (end: u64)
        requires
            old(ends).wf(),
            self.wf(old(ends)),
            end_in_range(self.base, new_end),
        ensures
            final(ends).wf(),
            final(ends)@ == old(ends)@.update(self.cell as int, new_end),
            end == new_end,
    {
        ends.cells[self.cell] = new_end;
        new_end
    }

    /// Empties the heap: the end goes back to the base, and the pages that
    /// covered the heap are returned to be unmapped. `None` when the heap was
    /// empty already.
    pub fn clean_up(&self, ends: &mut HeapEnds) -> (unmap: Option<PageSpan>)
        requires
            old(ends).wf(),
            self.wf(old(ends)),
        ensures
            final(ends).wf(),
            final(ends)@ == old(ends)@.update(self.cell as int, self.base),
            unmap == (if self.end(old(ends)) == self.base {
                None
            } else {
                Some(PageSpan { start: self.base, count: self.pages_to(self.end(old(ends))) })
            }),
            unmap matches Some(span) ==> span.wf() && span.count > 0,
    {
        let end = ends.cells[self.cell];
        if end == self.base {
            assert(ends@ == old(ends)@.update(self.cell as int, self.base));
            return None;
        }
        ends.cells[self.cell] = self.base;
        Some(PageSpan { start: self.base, count: self.page_count_to(end) })
    }

    /// Bytes between the base and the end.
    pub fn memory_usage(&self, ends: &HeapEnds) -> (bytes: u64)
        requires
            ends.wf(),
            self.wf(ends),
        ensures
            bytes == self.end(ends) - self.base,
    {
        ends.cells[self.cell] - self.base
    }
}

} // verus!
