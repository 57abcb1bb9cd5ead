//! Process identifiers and the counter that hands them out.

use vstd::prelude::*;

verus! {

/// Identifier of a process: unique for the lifetime of the counter that made it.
#[derive(Clone, Copy, Debug, PartialEq, Eq, Structural, PartialOrd, Ord, Hash)]
pub struct ProcessId(pub u16);

/// The first identifier a fresh counter hands out.
pub const FIRST_PID: u16 = 1;

/// Source of fresh process identifiers.
///
/// The counter only moves upwards, so an identifier is never handed out twice.
/// Once it has reached `u16::MAX` it is exhausted and hands out nothing more.
pub struct PidCounter {
    next: u16,
}

impl PidCounter {
    /// The identifier that the next allocation returns.
    pub closed spec fn next(&self) -> u16 {
        self.next
    }

    /// Whether another identifier can still be allocated.
    pub open spec fn available(&self) -> bool {
        self.next() < u16::MAX
    }

    /// A counter that starts at [`FIRST_PID`].
    pub fn new() -> (counter: Self)
        ensures
            counter.next() == FIRST_PID,
    {
        PidCounter { next: FIRST_PID }
    }

    /// The identifier that the next allocation returns.
    pub fn peek(&self) -> (next: u16)
        ensures
            next == self.next(),
    {
        self.next
    }

    /// Whether another identifier can still be allocated.
    pub fn has_next(&self) -> (yes: bool)
        ensures
            yes == self.available(),
    {
        self.next < u16::MAX
    }
}

impl ProcessId {
    /// Allocates the next identifier from `counter`.
    pub fn new(counter: &mut PidCounter) -> (pid: Self)
        requires
            old(counter).available(),
        ensures
            pid.0 == old(counter).next(),
            final(counter).next() == old(counter).next() + 1,
    {
        let pid = ProcessId(counter.next);
        counter.next = counter.next + 1;
        pid
    }
}

impl From<ProcessId> for u16 {
    fn from(pid: ProcessId) -> (raw: u16) {
        pid.0
    }
}

impl vstd::std_specs::convert::FromSpecImpl<ProcessId> for u16 {
    open spec fn obeys_from_spec() -> bool {
        true
    }

    open spec fn from_spec(pid: ProcessId) -> u16 {
        pid.0
    }
}

} // verus!
