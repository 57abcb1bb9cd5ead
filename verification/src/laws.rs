//! What holds of the core as a whole: properties that span several
//! operations or every reachable state.

use vstd::prelude::*;
use crate::heap::{end_in_range, BrkOutcome, Heap};
use crate::manager::KernelState;
use crate::memory::PageTableContext;
use crate::pid::{PidCounter, ProcessId};
use crate::process::ProgramStatus;
use crate::stack::{pid_slot, window_floor, Stack, STACK_MAX_SIZE};
use crate::sync::SemaphoreState;

verus! {

/// Identifiers grow: of the identifiers that successive allocations from
/// one counter return, every later one is greater than every earlier one.
///
/// `counters[i]` is the counter before allocation number `i`, and each
/// allocation moves the counter as [`ProcessId::new`] says.
pub proof fn lemma_pid_monotonic(counters: Seq<PidCounter>, earlier: int, later: int)
    requires
        forall|i: int|
            0 <= i < counters.len() - 1 ==> #[trigger] counters[i].available() && counters[i
                + 1].next() == counters[i].next() + 1,
        0 <= earlier < later < counters.len(),
    ensures
        counters[earlier].next() < counters[later].next(),
    decreases later - earlier,
{
    assert(counters[later - 1].available());
    if earlier < later - 1 {
        lemma_pid_monotonic(counters, earlier, later - 1);
    }
}

/// At most one process is running: two running processes of a well-formed
/// state are the same process, the current one.
pub proof fn lemma_one_running(state: KernelState, first: ProcessId, second: ProcessId)
    requires
        state.wf(),
        state.procs.contains_key(first),
        state.procs.contains_key(second),
        state.procs[first].status == ProgramStatus::Running,
        state.procs[second].status == ProgramStatus::Running,
    ensures
        first == second,
        first == state.current,
{
    assert(state.holds(first));
    assert(state.holds(second));
}

/// Succession of states is transitive: over any number of operations no
/// process leaves the registry, and a dead process stays dead with its exit
/// code.
pub proof fn lemma_precedes_trans(first: KernelState, second: KernelState, third: KernelState)
    requires
        first.precedes(second),
        second.precedes(third),
    ensures
        first.precedes(third),
{
    assert forall|pid: ProcessId| #[trigger] first.procs.contains_key(pid) implies {
        &&& third.procs.contains_key(pid)
        &&& first.procs[pid].is_dead() ==> third.procs[pid].is_dead() && third.procs[pid].exit_code
            == first.procs[pid].exit_code
    } by {
        assert(second.procs.contains_key(pid));
    }
}

/// The stale entries at the head of the ready queue are exactly those
/// before the first runnable one.
pub proof fn lemma_stale_prefix(state: KernelState)
    ensures
        state.stale_prefix() <= state.queue.len(),
        state.stale_prefix() < state.queue.len() ==> state.runnable(
            state.queue[state.stale_prefix() as int],
        ),
        forall|i: int| 0 <= i < state.stale_prefix() ==> !state.runnable(#[trigger] state.queue[i]),
    decreases state.queue.len(),
{
    if state.queue.len() > 0 && !state.runnable(state.queue[0]) {
        let rest = KernelState { queue: state.queue.drop_first(), ..state };
        lemma_stale_prefix(rest);
        assert forall|i: int| 0 <= i < state.stale_prefix() implies !state.runnable(
            #[trigger] state.queue[i],
        ) by {
            if i > 0 {
                assert(state.queue[i] == rest.queue[i - 1]);
            }
        }
    }
}

/// A dead process is never given the processor: whenever a switch finds a
/// process to run, it is one that was ready, hence not dead.
pub proof fn lemma_dead_never_scheduled(state: KernelState, dead: ProcessId)
    requires
        state.procs.contains_key(dead),
        state.procs[dead].is_dead(),
        state.stale_prefix() < state.queue.len(),
    ensures
        state.after_switch().current != dead,
{
    lemma_stale_prefix(state);
}

/// The ready queue is first in, first out: a runnable process at position
/// `ahead` of the queue is given the processor no later than one at a
/// position `behind` it. The switch takes the first runnable entry, which
/// is at or before `ahead`, and if that entry is not the one at `ahead`
/// both entries stay in the queue in their order.
pub proof fn lemma_ready_queue_fifo(state: KernelState, ahead: int, behind: int)
    requires
        0 <= ahead < behind < state.queue.len(),
        state.runnable(state.queue[ahead]),
    ensures
        state.stale_prefix() <= ahead,
        state.after_switch().current == state.queue[state.stale_prefix() as int],
        state.stale_prefix() < ahead ==> {
            let rest = state.after_switch().queue;
            let shift = state.stale_prefix() + 1;
            &&& rest[ahead - shift] == state.queue[ahead]
            &&& rest[behind - shift] == state.queue[behind]
        },
{
    lemma_stale_prefix(state);
    if state.stale_prefix() > ahead {
        assert(!state.runnable(state.queue[ahead]));
    }
}

/// A process that joins the ready queue stands behind every process that
/// is already in it.
pub proof fn lemma_push_goes_last(queue: Seq<ProcessId>, pid: ProcessId, at: int)
    requires
        0 <= at < queue.len(),
    ensures
        queue.push(pid)[at] == queue[at],
        queue.push(pid)[queue.len() as int] == pid,
{
}

/// The lower bound of the stack window is a guard: a fault below it is
/// never resolved, whatever its error code.
pub proof fn lemma_stack_guard(state: KernelState, addr: u64, err_code: u64)
    requires
        state.alive(state.current),
        addr < state.procs[state.current].vm.unwrap().stack.window_low(),
    ensures
        !state.resolves(addr, err_code),
{
}

/// A fault in or above the mapped part of the stack is never resolved.
pub proof fn lemma_stack_mapped(state: KernelState, addr: u64, err_code: u64)
    requires
        state.alive(state.current),
        addr >= state.procs[state.current].vm.unwrap().stack.low(),
    ensures
        !state.resolves(addr, err_code),
{
}

/// The stack windows of two different process identifiers do not overlap.
pub proof fn lemma_windows_disjoint(first: ProcessId, second: ProcessId)
    requires
        first != second,
        pid_slot(first).is_some(),
        pid_slot(second).is_some(),
    ensures
        ({
            let a = Stack::vacant(pid_slot(first).unwrap());
            let b = Stack::vacant(pid_slot(second).unwrap());
            a.window_high() <= b.window_low() || b.window_high() <= a.window_low()
        }),
{
}

/// Children forked from one stack with different counts get windows that do
/// not overlap, and none of them overlaps the window of the parent.
pub proof fn lemma_sibling_windows_disjoint(parent: Stack, first: u64, second: u64)
    requires
        parent.wf(),
        first != second,
        parent.can_lower(first + 1),
        parent.can_lower(second + 1),
    ensures
        ({
            let a = parent.lowered(first + 1);
            let b = parent.lowered(second + 1);
            &&& a.window_high() <= b.window_low() || b.window_high() <= a.window_low()
            &&& a.window_high() <= parent.window_low()
        }),
{
}

/// Setting the end of a heap and asking for it gives the value back, for
/// every admissible end.
pub proof fn lemma_brk_round_trip(heap: Heap, ends: Seq<u64>, new_end: u64)
    requires
        heap.cell < ends.len(),
        end_in_range(heap.base, new_end),
    ensures
        heap.brk_outcome(ends.update(heap.cell as int, new_end)[heap.cell as int], None)
            == BrkOutcome::Current(new_end),
{
}

/// The same for the heap of the current process of a well-formed state:
/// once a new end has been recorded, a query for the end gives it back.
pub proof fn lemma_current_brk_round_trip(state: KernelState, new_end: u64)
    requires
        state.wf(),
        state.alive(state.current),
        end_in_range(state.current_heap().base, new_end),
    ensures
        ({
            let after = KernelState {
                heap_ends: state.heap_ends.update(state.current_heap().cell as int, new_end),
                ..state
            };
            after.current_heap().brk_outcome(
                after.heap_ends[after.current_heap().cell as int],
                None,
            ) == BrkOutcome::Current(new_end)
        }),
{
    assert(state.holds(state.current));
}

/// An operation on a semaphore.
pub enum SemaphoreOp {
    /// The process asks for a grant.
    Wait(ProcessId),
    /// A grant is given back.
    Signal,
}

/// State of a semaphore after the operations `ops`, applied in order.
pub open spec fn sem_after(start: SemaphoreState, ops: Seq<SemaphoreOp>) -> SemaphoreState
    decreases ops.len(),
{
    if ops.len() == 0 {
        start
    } else {
        let before = sem_after(start, ops.drop_last());
        match ops.last() {
            SemaphoreOp::Wait(pid) => before.after_wait(pid),
            SemaphoreOp::Signal => before.after_signal(),
        }
    }
}

/// Number of waits among `ops`.
pub open spec fn waits_in(ops: Seq<SemaphoreOp>) -> nat
    decreases ops.len(),
{
    if ops.len() == 0 {
        0
    } else {
        waits_in(ops.drop_last()) + (if ops.last() is Wait {
            1nat
        } else {
            0nat
        })
    }
}

/// Number of signals among `ops`.
pub open spec fn signals_in(ops: Seq<SemaphoreOp>) -> nat
    decreases ops.len(),
{
    if ops.len() == 0 {
        0
    } else {
        signals_in(ops.drop_last()) + (if ops.last() is Signal {
            1nat
        } else {
            0nat
        })
    }
}

/// Grants are conserved. After any sequence of waits and signals on a
/// semaphore that started with `initial` free grants, the counter less the
/// number of waiting processes is `initial` less the waits plus the signals.
/// So with nobody waiting the counter is exactly that number, and while
/// somebody waits the counter is zero.
///
/// The counter is a `usize`: the law holds as long as `initial` plus the
/// signals fits.
pub proof fn lemma_semaphore_conservation(initial: nat, ops: Seq<SemaphoreOp>)
    requires
        initial + signals_in(ops) <= usize::MAX,
    ensures
        ({
            let end = sem_after(SemaphoreState::fresh(initial), ops);
            &&& end.wf()
            &&& end.value() == initial - waits_in(ops) + signals_in(ops)
            &&& end.waiting.len() == 0 ==> end.count == initial - waits_in(ops) + signals_in(ops)
            &&& end.waiting.len() > 0 ==> end.count == 0
            &&& end.count <= initial + signals_in(ops)
        }),
    decreases ops.len(),
{
    if ops.len() > 0 {
        lemma_semaphore_conservation(initial, ops.drop_last());
    }
}

/// Waiting processes are woken in the order in which they started to wait:
/// a signal wakes the head of the queue and leaves the others in order.
pub proof fn lemma_semaphore_fifo(state: SemaphoreState)
    requires
        state.waiting.len() > 0,
    ensures
        state.signal_result() == crate::sync::SemaphoreResult::WakeUp(state.waiting[0]),
        state.after_signal().waiting == state.waiting.drop_first(),
        state.after_signal().count == state.count,
{
}

/// A forked child shares the data of its parent: right after the fork both
/// have the same data, and what either of them changes in it, the other
/// sees.
pub proof fn lemma_fork_shares_data(state: KernelState, page_table: PageTableContext)
    requires
        state.wf(),
        state.alive(state.current),
        state.fork_error().is_none(),
    ensures
        ({
            let after = state.after_fork(page_table);
            let child = ProcessId(state.next_pid);
            &&& after.alive(child)
            &&& after.alive(state.current)
            &&& after.procs[child].data == after.procs[state.current].data
            &&& forall|data: crate::data::DataState|
                #![trigger after.with_data(state.current, data)]
                after.with_data(state.current, data).data_of(child) == data
            &&& forall|data: crate::data::DataState|
                #![trigger after.with_data(child, data)]
                after.with_data(child, data).data_of(state.current) == data
        }),
{
    assert(state.holds(state.current));
}

/// A forked child shares the heap end of its parent: a new end that
/// either of them records is the end of both.
pub proof fn lemma_fork_shares_heap(state: KernelState, page_table: PageTableContext)
    requires
        state.wf(),
        state.alive(state.current),
        state.fork_error().is_none(),
    ensures
        ({
            let after = state.after_fork(page_table);
            let child = ProcessId(state.next_pid);
            after.procs[child].vm.unwrap().heap == after.procs[state.current].vm.unwrap().heap
        }),
{
    assert(state.holds(state.current));
}

} // verus!
