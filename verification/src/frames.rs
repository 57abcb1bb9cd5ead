//! The allocator of physical frames.
//!
//! Fresh frames come from the usable regions of the memory map, in the order
//! of the map. Frames that are given back are kept on a stack and handed out
//! again before any fresh frame.

use vstd::prelude::*;
use crate::memory::{frame_start, is_page_aligned, page_floor, PAGE_SIZE, PHYS_ADDR_LIMIT};

verus! {

/// A region of physical memory, as the boot loader reports it.
#[derive(Clone, Copy, Debug, PartialEq, Eq, Structural)]
pub struct MemoryRegion {
    /// Whether the region is free for the kernel to use.
    pub usable: bool,
    /// Physical address of the first byte.
    pub phys_start: u64,
    /// Number of 4 KiB pages in the region.
    pub page_count: u64,
}

impl MemoryRegion {
    /// The region ends below the limit of physical addresses.
    pub open spec fn wf(self) -> bool {
        self.phys_start + self.page_count * PAGE_SIZE <= PHYS_ADDR_LIMIT
    }

    /// The frame that holds the first byte of page `page` of the region.
    pub open spec fn frame(self, page: int) -> u64 {
        page_floor((self.phys_start + page * PAGE_SIZE) as u64)
    }

    /// The frames that the region contributes: one for each of its pages if
    /// it is usable, none otherwise.
    pub open spec fn frames(self) -> Seq<u64> {
        if self.usable {
            Seq::new(self.page_count as nat, |page: int| self.frame(page))
        } else {
            Seq::empty()
        }
    }
}

/// The frames of a memory map: those of its regions, in the order of the map.
pub open spec fn frames_of(regions: Seq<MemoryRegion>) -> Seq<u64>
    decreases regions.len(),
{
    if regions.len() == 0 {
        Seq::empty()
    } else {
        frames_of(regions.drop_last()) + regions.last().frames()
    }
}

/// Where the frames of region `at` stand among the frames of the whole map:
/// behind those of the regions before it.
proof fn lemma_region_frames(regions: Seq<MemoryRegion>, at: int)
    requires
        0 <= at < regions.len(),
    ensures
        frames_of(regions.take(at + 1)) == frames_of(regions.take(at)) + regions[at].frames(),
        frames_of(regions.take(at + 1)).len() <= frames_of(regions).len(),
        forall|i: int|
            0 <= i < frames_of(regions.take(at + 1)).len() ==> frames_of(regions)[i] == frames_of(
                regions.take(at + 1),
            )[i],
    decreases regions.len(),
{
    assert(regions.take(at + 1).drop_last() == regions.take(at));
    if at == regions.len() - 1 {
        assert(regions.take(at + 1) == regions);
    } else {
        let shorter = regions.drop_last();
        lemma_region_frames(shorter, at);
        assert(shorter.take(at + 1) == regions.take(at + 1));
        assert(shorter.take(at) == regions.take(at));
    }
}

/// Mathematical state of the frame allocator.
pub struct FrameState {
    /// Number of frames the machine has.
    pub total: usize,
    /// Number of requests that were answered from the memory map.
    pub used: usize,
    /// The frames of the memory map.
    pub fresh: Seq<u64>,
    /// Number of frames of the memory map that have been handed out.
    pub next: nat,
    /// The frames that were given back, latest last.
    pub recycled: Seq<u32>,
}

impl FrameState {
    /// The state after a request for a frame.
    pub open spec fn after_allocate(self) -> Self {
        if self.recycled.len() > 0 {
            FrameState { recycled: self.recycled.drop_last(), ..self }
        } else {
            FrameState {
                used: if self.used < usize::MAX {
                    (self.used + 1) as usize
                } else {
                    self.used
                },
                next: if self.next < self.fresh.len() {
                    self.next + 1
                } else {
                    self.next
                },
                ..self
            }
        }
    }

    /// The frame that a request is answered with: the frame given back
    /// last, else the next fresh frame, else none.
    pub open spec fn allocated(self) -> Option<u64> {
        if self.recycled.len() > 0 {
            Some(self.recycled.last() as u64)
        } else if self.next < self.fresh.len() {
            Some(self.fresh[self.next as int])
        } else {
            None
        }
    }
}

/// The frame allocator.
pub struct BootInfoFrameAllocator {
    size: usize,
    used: usize,
    regions: Vec<MemoryRegion>,
    region: usize,
    page: u64,
    recycled: Vec<u32>,
}

impl View for BootInfoFrameAllocator {
    type V = FrameState;

    closed spec fn view(&self) -> FrameState {
        FrameState {
            total: self.size,
            used: self.used,
            fresh: frames_of(self.regions@),
            next: (frames_of(self.regions@.take(self.region as int)).len() + self.page) as nat,
            recycled: self.recycled@,
        }
    }
}

impl BootInfoFrameAllocator {
    /// The regions end below the limit of physical addresses, the place of
    /// the next fresh frame lies inside the map, and every frame that was
    /// given back starts on a page boundary.
    pub closed spec fn wf(&self) -> bool {
        &&& forall|i: int| 0 <= i < self.regions@.len() ==> (#[trigger] self.regions@[i]).wf()
        &&& forall|i: int|
            0 <= i < self.recycled@.len() ==> is_page_aligned((#[trigger] self.recycled@[i]) as u64)
        &&& self.region <= self.regions@.len()
        &&& self.region == self.regions@.len() ==> self.page == 0
        &&& self.region < self.regions@.len() ==> self.page <= self.regions@[self.region as int].frames().len()
    }

    /// An allocator for a machine with `size` frames and the memory map
    /// `memory_map`. Nothing has been handed out yet.
    pub fn init(memory_map: Vec<MemoryRegion>, size: usize) -> (allocator: Self)
        requires
            forall|i: int| 0 <= i < memory_map@.len() ==> (#[trigger] memory_map@[i]).wf(),
        ensures
            allocator.wf(),
            allocator@ == (FrameState {
                total: size,
                used: 0,
                fresh: frames_of(memory_map@),
                next: 0,
                recycled: Seq::empty(),
            }),
    {
        let allocator = BootInfoFrameAllocator {
            size,
            used: 0,
            regions: memory_map,
            region: 0,
            page: 0,
            recycled: Vec::new(),
        };
        proof {
            assert(allocator.regions@.take(0) == Seq::<MemoryRegion>::empty());
        }
        allocator
    }

    /// Number of requests that were answered from the memory map.
    pub fn frames_used(&self) -> (used: usize)
        ensures
            used == self@.used,
    {
        self.used
    }

    /// Number of frames the machine has.
    pub fn frames_total(&self) -> (total: usize)
        ensures
            total == self@.total,
    {
        self.size
    }

    /// Number of frames that were given back and wait to be handed out again.
    pub fn recycle_size(&self) -> (waiting: usize)
        ensures
            waiting == self@.recycled.len(),
    {
        self.recycled.len()
    }

    /// The next fresh frame of the memory map, if one is left.
    fn next_fresh(&mut self) -> (frame: Option<u64>)
        requires
            old(self).wf(),
        ensures
            final(self).wf(),
            final(self)@.total == old(self)@.total,
            final(self)@.used == old(self)@.used,
            final(self)@.fresh == old(self)@.fresh,
            final(self)@.recycled == old(self)@.recycled,
            frame == (if old(self)@.next < old(self)@.fresh.len() {
                Some(old(self)@.fresh[old(self)@.next as int])
            } else {
                None
            }),
            frame matches Some(start) ==> is_page_aligned(start),
            final(self)@.next == (if old(self)@.next < old(self)@.fresh.len() {
                old(self)@.next + 1
            } else {
                old(self)@.next
            }),
    {
        while self.region < self.regions.len()
            invariant
                self.wf(),
                self.regions == old(self).regions,
                self.size == old(self).size,
                self.used == old(self).used,
                self.recycled == old(self).recycled,
                self@.next == old(self)@.next,
            decreases self.regions@.len() - self.region,
        {
            let current = self.regions[self.region];
            proof {
                lemma_region_frames(self.regions@, self.region as int);
            }
            if current.usable && self.page < current.page_count {
                let addr = current.phys_start + self.page * PAGE_SIZE;
                let frame = frame_start(addr);
                proof {
                    let before = frames_of(self.regions@.take(self.region as int));
                    let upto = frames_of(self.regions@.take(self.region + 1));
                    assert(upto[before.len() + self.page] == current.frames()[self.page as int]);
                    assert(current.frames()[self.page as int] == frame);
                }
                self.page = self.page + 1;
                return Some(frame);
            }
            self.region = self.region + 1;
            self.page = 0;
        }
        proof {
            assert(self.regions@.take(self.region as int) == self.regions@);
        }
        None
    }

    /// Hands out a frame: the one that was given back last, if any waits,
    /// and else the next fresh frame of the memory map. `None` when the
    /// map has no frame left. A frame that is handed out starts on a page
    /// boundary.
    pub fn allocate_frame(&mut self) -> (frame: Option<u64>)
        requires
            old(self).wf(),
        ensures
            final(self).wf(),
            frame == old(self)@.allocated(),
            frame matches Some(start) ==> is_page_aligned(start),
            final(self)@ == old(self)@.after_allocate(),
    {
        if self.recycled.len() == 0 {
            if self.used < usize::MAX {
                self.used = self.used + 1;
            }
            self.next_fresh()
        } else {
            match self.recycled.pop() {
                Some(key) => Some(key as u64),
                None => None,
            }
        }
    }

    /// Takes a frame back, to be handed out again before any other. The
    /// frame is named by its start address, on a page boundary, and has to
    /// start below 4 GiB.
    pub fn deallocate_frame(&mut self, frame: u64)
        requires
            old(self).wf(),
            is_page_aligned(frame),
            frame <= u32::MAX,
        ensures
            final(self).wf(),
            final(self)@ == (FrameState {
                recycled: old(self)@.recycled.push(frame as u32),
                ..old(self)@
            }),
    {
        self.recycled.push(frame as u32);
    }
}

} // verus!
