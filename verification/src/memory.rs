//! Pages, page spans and the memory actions handed to the embedding kernel.

use vstd::prelude::*;
use x86_64::structures::idt::PageFaultErrorCode;
use x86_64::structures::paging::{Page, PhysFrame, Size4KiB};
use x86_64::{PhysAddr, VirtAddr};

verus! {

/// Size of a page of virtual memory, in bytes.
pub const PAGE_SIZE: u64 = 0x1000;

/// Whether `addr` is a canonical x86_64 virtual address: bits 48 to 63 copy bit 47.
pub open spec fn is_canonical(addr: u64) -> bool {
    addr < 0x0000_8000_0000_0000 || addr >= 0xffff_8000_0000_0000
}

/// Whether `addr` is the first byte of a page.
pub open spec fn is_page_aligned(addr: u64) -> bool {
    addr % PAGE_SIZE == 0
}

/// Start of the page that holds `addr`.
pub open spec fn page_floor(addr: u64) -> u64 {
    (addr - addr % PAGE_SIZE) as u64
}

/// Number of whole pages needed to hold `len` bytes.
pub open spec fn pages_covering(len: u64) -> u64 {
    ((len + PAGE_SIZE - 1) / (PAGE_SIZE as int)) as u64
}

/// Start address of the 4 KiB page that contains `addr`.
///
/// Calls `x86_64::structures::paging::Page::containing_address` on
/// `x86_64::VirtAddr::new(addr)`. The address type refuses non-canonical
/// values, hence the precondition; the page start is the address with its low
/// twelve bits cleared.
#[verifier::external_body]
pub(crate) fn page_start(addr: u64) -> (start: u64)
    requires
        is_canonical(addr),
    ensures
        start == page_floor(addr),
{
    Page::<Size4KiB>::containing_address(VirtAddr::new(addr)).start_address().as_u64()
}

/// First physical address that the processor cannot form: addresses have 52 bits.
pub const PHYS_ADDR_LIMIT: u64 = 0x10_0000_0000_0000;

/// Start address of the 4 KiB frame that contains the physical address `addr`.
///
/// Calls `x86_64::structures::paging::PhysFrame::containing_address` on
/// `x86_64::PhysAddr::new(addr)`. The address type refuses values with a bit
/// above bit 51 set, hence the precondition; the frame start is the address
/// with its low twelve bits cleared.
#[verifier::external_body]
pub(crate) fn frame_start(addr: u64) -> (start: u64)
    requires
        addr < PHYS_ADDR_LIMIT,
    ensures
        start == page_floor(addr),
{
    PhysFrame::<Size4KiB>::containing_address(PhysAddr::new(addr)).start_address().as_u64()
}

/// Whether a page-fault error code reports a protection violation (bit 0).
pub open spec fn is_protection_violation(err_code: u64) -> bool {
    err_code % 2 == 1
}

/// Reads the protection-violation flag of a page-fault error code.
///
/// Calls `x86_64::structures::idt::PageFaultErrorCode::contains` with
/// `PROTECTION_VIOLATION`, which is bit 0 of the code; the other bits are
/// dropped by `from_bits_truncate` or ignored by `contains`.
#[verifier::external_body]
pub(crate) fn protection_violation(err_code: u64) -> (violation: bool)
    ensures
        violation == is_protection_violation(err_code),
{
    PageFaultErrorCode::from_bits_truncate(err_code).contains(
        PageFaultErrorCode::PROTECTION_VIOLATION,
    )
}

/// A run of consecutive pages: `count` pages from the page-aligned address `start`.
#[derive(Clone, Copy, Debug, PartialEq, Eq, Structural)]
pub struct PageSpan {
    /// Address of the first page.
    pub start: u64,
    /// Number of pages.
    pub count: u64,
}

impl PageSpan {
    /// The span starts on a page boundary and ends inside the address space.
    pub open spec fn wf(&self) -> bool {
        &&& is_page_aligned(self.start)
        &&& self.start + self.count * PAGE_SIZE <= u64::MAX
    }

    /// First address after the span.
    pub open spec fn end(&self) -> int {
        self.start + self.count * PAGE_SIZE
    }

    /// Whether `addr` lies in one of the span's pages.
    pub open spec fn covers(&self, addr: u64) -> bool {
        self.start <= addr < self.end()
    }

    /// The pages of the half-open byte range `[low, high)`, both ends page aligned.
    pub fn between(low: u64, high: u64) -> (span: Self)
        requires
            is_page_aligned(low),
            is_page_aligned(high),
            low <= high,
        ensures
            span.wf(),
            span.start == low,
            span.end() == high,
    {
        PageSpan { start: low, count: (high - low) / PAGE_SIZE }
    }
}

/// A page-table edit that the embedding kernel has to carry out.
#[derive(Clone, Copy, Debug, PartialEq, Eq, Structural)]
pub enum MemoryAction {
    /// Back every page of the span with a fresh, user-accessible frame.
    MapPages(PageSpan),
    /// Remove the mapping of every page of the span and release its frame.
    UnmapPages(PageSpan),
}

/// Handle of a top-level page table: the physical address of its frame.
///
/// The core never looks inside a page table. It stores the handle with the
/// address space it belongs to and hands it back when that address space has
/// to become the active one.
#[derive(Clone, Copy, Debug, PartialEq, Eq, Structural)]
pub struct PageTableContext {
    /// Physical address of the level-4 table.
    pub root: u64,
}

impl PageTableContext {
    /// Wraps the physical address of a level-4 table.
    pub fn new(root: u64) -> (table: Self)
        ensures
            table.root == root,
    {
        PageTableContext { root }
    }
}

} // verus!
