//! The process registry and the scheduler.
//!
//! The manager owns every process, the ready queue, the identifier counter
//! and the data that processes share. It decides who runs next and keeps the
//! books of every process's life; page-table edits that a decision calls for
//! are returned to the caller, who carries them out.

use vstd::prelude::*;
use vstd::string::StringExecFns;
use std::collections::BTreeMap;
use std::collections::VecDeque;
use crate::context::{ProcessContext, Selectors};
use crate::data::{initial_data, DataHandle, DataState, DataStore, ProcessData};
use crate::heap::{end_in_range, BrkOutcome, Heap, HeapEnds, HEAP_START};
use crate::memory::{is_protection_violation, protection_violation, PageSpan, PageTableContext};
use crate::pid::{PidCounter, ProcessId};
use crate::process::{ForkError, Process, ProcessState, ProgramStatus};
use crate::input::InputBuffer;
use crate::resource::{Resource, ResourceSet};
use crate::stack::{pid_slot, Stack, STACK_DEF_SIZE, STACK_MAX_SIZE, STACK_TOP_GAP};
use crate::sync::{SemaphoreResult, SemaphoreState};
use crate::vm::{LoadedImage, ProcessVm, VmRelease, CODE_MAX};

verus! {

/// Raw identifier of the kernel's own process: the first one handed out.
pub const KERNEL_PID: u16 = 1;

/// The strings of `names` in order, with `separator` between neighbours.
pub open spec fn joined(names: Seq<Seq<char>>, separator: Seq<char>) -> Seq<char>
    decreases names.len(),
{
    if names.len() == 0 {
        Seq::empty()
    } else if names.len() == 1 {
        names[0]
    } else {
        joined(names.drop_last(), separator) + separator + names.last()
    }
}

/// Mathematical state of the process manager.
pub struct KernelState {
    /// Every process ever registered, dead ones included.
    pub procs: Map<ProcessId, ProcessState>,
    /// The ready queue, next to run first. Entries may be stale: their
    /// process may have been blocked or killed since it was queued.
    pub queue: Seq<ProcessId>,
    /// The process that owns the processor.
    pub current: ProcessId,
    /// The identifier that the next new process gets.
    pub next_pid: u16,
    /// The shared data, by handle.
    pub data: Seq<DataState>,
    /// The shared heap ends, by cell.
    pub heap_ends: Seq<u64>,
    /// Names of the programs that can be spawned.
    pub apps: Seq<Seq<char>>,
    /// Segment selectors that new processes start with.
    pub selectors: Selectors,
}

impl KernelState {
    /// What has to hold of the registered process `pid`.
    pub open spec fn holds(self, pid: ProcessId) -> bool {
        let state = self.procs[pid];
        &&& state.wf()
        &&& state.status == ProgramStatus::Running ==> pid == self.current
        &&& pid.0 < self.next_pid
        &&& state.data matches Some(handle) ==> handle.0 < self.data.len()
        &&& state.vm matches Some(vm) ==> vm.heap.base == HEAP_START && vm.heap.cell
            < self.heap_ends.len()
    }

    /// The current process is registered, every registered process is well
    /// formed, at most the current process is running, no identifier is
    /// still to be handed out, and every handle names something.
    pub open spec fn wf(self) -> bool {
        &&& self.procs.contains_key(self.current)
        &&& forall|pid: ProcessId| self.procs.contains_key(pid) ==> #[trigger] self.holds(pid)
        &&& forall|i: int| 0 <= i < self.data.len() ==> (#[trigger] self.data[i]).wf()
        &&& forall|i: int|
            0 <= i < self.heap_ends.len() ==> end_in_range(HEAP_START, #[trigger] self.heap_ends[i])
    }

    /// Whether `pid` is registered and not dead.
    pub open spec fn alive(self, pid: ProcessId) -> bool {
        self.procs.contains_key(pid) && !self.procs[pid].is_dead()
    }

    /// The data of the live process `pid`.
    pub open spec fn data_of(self, pid: ProcessId) -> DataState {
        self.data[self.procs[pid].data.unwrap().0 as int]
    }

    /// The state with the state of process `pid` replaced.
    pub open spec fn with_proc(self, pid: ProcessId, state: ProcessState) -> Self {
        KernelState { procs: self.procs.insert(pid, state), ..self }
    }

    /// Where the wait for the end of `pid` stands.
    pub open spec fn wait_outcome(self, pid: ProcessId) -> WaitOutcome {
        if !self.procs.contains_key(pid) {
            WaitOutcome::NotFound
        } else if self.procs[pid].is_dead() {
            WaitOutcome::Exited(self.procs[pid].exit_code.unwrap())
        } else {
            WaitOutcome::StillAlive
        }
    }

    /// Whether `pid` is registered and ready to run.
    pub open spec fn runnable(self, pid: ProcessId) -> bool {
        self.procs.contains_key(pid) && self.procs[pid].status == ProgramStatus::Ready
    }

    /// Number of entries at the head of the ready queue that are stale: their
    /// process is unknown or not ready.
    pub open spec fn stale_prefix(self) -> nat
        decreases self.queue.len(),
    {
        if self.queue.len() == 0 || self.runnable(self.queue[0]) {
            0
        } else {
            1 + (KernelState { queue: self.queue.drop_first(), ..self }).stale_prefix()
        }
    }

    /// The state after the current process has been interrupted with the
    /// trap frame `context`: it has one more tick and the new context, has
    /// stopped running, and is at the back of the ready queue unless it is
    /// dead.
    pub open spec fn after_save(self, context: ProcessContext) -> Self {
        let state = self.procs[self.current].ticked().saved(context);
        KernelState {
            procs: self.procs.insert(self.current, state),
            queue: if state.status != ProgramStatus::Dead {
                self.queue.push(self.current)
            } else {
                self.queue
            },
            ..self
        }
    }

    /// The state after the current process has given up the processor
    /// with the trap frame `context` without being queued: it has one more
    /// tick and the new context, and nothing else has changed.
    pub open spec fn after_park(self, context: ProcessContext) -> Self {
        self.with_proc(self.current, self.procs[self.current].parked(context))
    }

    /// The state after the processor has gone to the first runnable process
    /// of the ready queue, if there is one: the stale entries before it and
    /// its own entry have left the queue, it is running and current, and the
    /// process it took the processor from is no longer running.
    pub open spec fn after_switch(self) -> Self {
        let stale = self.stale_prefix() as int;
        if stale < self.queue.len() {
            let next = self.queue[stale];
            KernelState {
                procs: self.procs.insert(
                    self.current,
                    self.procs[self.current].saved(self.procs[self.current].context),
                ).insert(next, self.procs[next].restored()),
                queue: self.queue.skip(stale + 1),
                current: next,
                ..self
            }
        } else {
            KernelState { queue: Seq::empty(), ..self }
        }
    }

    /// What a switch in this state answers: the first runnable process of
    /// the ready queue with its page table, or that there is none.
    pub open spec fn switch_outcome(self) -> Result<Switched, SchedulerError> {
        let stale = self.stale_prefix() as int;
        if stale < self.queue.len() {
            Ok(
                Switched {
                    pid: self.queue[stale],
                    page_table: self.procs[self.queue[stale]].vm.unwrap().page_table,
                },
            )
        } else {
            Err(SchedulerError::NoRunnableProcess)
        }
    }

    /// What a switch in this state leaves in a trap frame that held
    /// `frame`: the context of the process that gets the processor, or
    /// `frame` itself if there is none.
    pub open spec fn switch_frame(self, frame: ProcessContext) -> ProcessContext {
        let stale = self.stale_prefix() as int;
        if stale < self.queue.len() {
            self.procs[self.queue[stale]].context
        } else {
            frame
        }
    }

    /// The state after the live process `pid` has been killed with exit code
    /// `ret`: the process is dead and its heap is empty.
    pub open spec fn after_kill(self, pid: ProcessId, ret: isize) -> Self {
        KernelState {
            procs: self.procs.insert(pid, self.procs[pid].killed(ret)),
            heap_ends: self.heap_ends.update(
                self.procs[pid].vm.unwrap().heap.cell as int,
                HEAP_START,
            ),
            ..self
        }
    }

    /// The state with the data of the live process `pid`, which it shares
    /// with its fork lineage, replaced.
    pub open spec fn with_data(self, pid: ProcessId, data: DataState) -> Self {
        KernelState {
            data: self.data.update(self.procs[pid].data.unwrap().0 as int, data),
            ..self
        }
    }

    /// The state after `pid` has been asked to block: a registered live
    /// process is blocked, anything else changes nothing.
    pub open spec fn after_block(self, pid: ProcessId) -> Self {
        if self.procs.contains_key(pid) {
            self.with_proc(pid, self.procs[pid].with_status(ProgramStatus::Blocked))
        } else {
            self
        }
    }

    /// The state after `pid` has been woken: a blocked process becomes
    /// ready and joins the ready queue, anything else changes nothing.
    pub open spec fn after_wake(self, pid: ProcessId) -> Self {
        if self.procs.contains_key(pid) && self.procs[pid].status == ProgramStatus::Blocked {
            KernelState {
                procs: self.procs.insert(pid, self.procs[pid].with_status(ProgramStatus::Ready)),
                queue: self.queue.push(pid),
                ..self
            }
        } else {
            self
        }
    }

    /// What a wait of the current process on the semaphore `key` is answered with.
    pub open spec fn sem_wait_result(self, key: u32) -> SemaphoreResult {
        self.data_of(self.current).wait_result(key, self.current)
    }

    /// The state after the current process has waited on the semaphore
    /// `key`: the semaphore has counted the wait, and the process is blocked
    /// if it got no grant.
    pub open spec fn after_sem_wait(self, key: u32) -> Self {
        let waited = self.with_data(
            self.current,
            self.data_of(self.current).after_wait(key, self.current),
        );
        if (self.sem_wait_result(key) is Block) {
            waited.after_block(self.current)
        } else {
            waited
        }
    }

    /// What a signal of the current process to the semaphore `key` is answered with.
    pub open spec fn sem_signal_result(self, key: u32) -> SemaphoreResult {
        self.data_of(self.current).signal_result(key)
    }

    /// The state after the current process has signalled the semaphore
    /// `key`: the semaphore has counted the signal, and the process at the
    /// head of its queue, if there was one, has been woken.
    pub open spec fn after_sem_signal(self, key: u32) -> Self {
        let signalled = self.with_data(
            self.current,
            self.data_of(self.current).after_signal(key),
        );
        match self.sem_signal_result(key) {
            SemaphoreResult::WakeUp(pid) => signalled.after_wake(pid),
            _ => signalled,
        }
    }

    /// The heap of the live current process.
    pub open spec fn current_heap(self) -> Heap {
        self.procs[self.current].vm.unwrap().heap
    }

    /// Bytes of memory that the live process `pid` uses: code, stack and heap.
    pub open spec fn memory_of(self, pid: ProcessId) -> int {
        let vm = self.procs[pid].vm.unwrap();
        vm.code_usage + vm.stack.usage() + (self.heap_ends[vm.heap.cell as int] - vm.heap.base)
    }

    /// The line of the process list for the live process `pid`.
    pub open spec fn row_of(self, pid: ProcessId) -> RowState {
        RowState {
            pid,
            parent: self.procs[pid].parent,
            name: self.procs[pid].name,
            ticks_passed: self.procs[pid].ticks_passed,
            memory_usage: self.memory_of(pid) as u64,
            status: self.procs[pid].status,
        }
    }

    /// The lines of the process list for the live processes with an
    /// identifier below `bound`, in the order of their identifiers.
    pub open spec fn rows_below(self, bound: int) -> Seq<RowState>
        decreases bound,
    {
        if bound <= 0 {
            Seq::empty()
        } else {
            let rest = self.rows_below(bound - 1);
            let pid = ProcessId((bound - 1) as u16);
            if self.alive(pid) {
                rest.push(self.row_of(pid))
            } else {
                rest
            }
        }
    }

    /// The names of the programs that can be spawned, separated by `", "`.
    pub open spec fn app_names(self) -> Seq<char> {
        joined(self.apps, ", "@)
    }

    /// Whether a program called `name` is listed.
    pub open spec fn lists_app(self, name: Seq<char>) -> bool {
        exists|i: int| 0 <= i < self.apps.len() && #[trigger] self.apps[i] == name
    }

    /// Whether `at` is the first position in the list of programs that holds `name`.
    pub open spec fn first_app(self, name: Seq<char>, at: int) -> bool {
        &&& 0 <= at < self.apps.len()
        &&& self.apps[at] == name
        &&& forall|i: int| 0 <= i < at ==> self.apps[i] != name
    }

    /// Why a spawn with the loader's result `image` fails, if it does: the
    /// image was not loaded, it is larger than an address space accounts
    /// for, the identifiers are used up, or the next identifier selects no
    /// stack window.
    pub open spec fn spawn_error(self, image: Option<LoadedImage>) -> Option<SpawnError> {
        match image {
            None => Some(SpawnError::ImageLoad),
            Some(loaded) => if loaded.code_bytes > CODE_MAX {
                Some(SpawnError::ImageTooLarge)
            } else if self.next_pid == u16::MAX {
                Some(SpawnError::NoPid)
            } else if pid_slot(ProcessId(self.next_pid)).is_none() {
                Some(SpawnError::NoStackWindow)
            } else {
                None
            },
        }
    }

    /// The address space of the process that the next spawn makes: the given
    /// page table, the default stack at the top of the window that the new
    /// identifier selects, an empty heap with a fresh cell, and the code of
    /// the image.
    pub open spec fn spawned_vm(self, image: LoadedImage, page_table: PageTableContext) -> ProcessVm {
        let vacant = Stack::vacant(pid_slot(ProcessId(self.next_pid)).unwrap());
        ProcessVm {
            page_table,
            stack: Stack { floor: vacant.floor, low: (vacant.low - STACK_DEF_SIZE) as u64 },
            heap: Heap { base: HEAP_START, cell: self.heap_ends.len() as usize },
            code_usage: image.code_bytes,
        }
    }

    /// The state of the process that the next spawn makes: ready, never run,
    /// about to enter the image on an empty stack.
    pub open spec fn spawned_proc(
        self,
        image: LoadedImage,
        name: Seq<char>,
        parent: Option<ProcessId>,
        page_table: PageTableContext,
    ) -> ProcessState {
        let vm = self.spawned_vm(image, page_table);
        ProcessState {
            context: ProcessContext::idle().started(
                image.entry,
                (vm.stack.window_high() - STACK_TOP_GAP) as u64,
                self.selectors,
            ),
            ..Process::created(name, parent, vm, DataHandle(self.data.len() as usize))
        }
    }

    /// The state after a successful spawn with the data `data`: the new
    /// process is registered and queued, and the shared data and the heap
    /// ends have gained one entry each.
    pub open spec fn after_spawn(
        self,
        image: LoadedImage,
        name: Seq<char>,
        parent: Option<ProcessId>,
        data: DataState,
        page_table: PageTableContext,
    ) -> Self {
        let pid = ProcessId(self.next_pid);
        KernelState {
            procs: self.procs.insert(pid, self.spawned_proc(image, name, parent, page_table)),
            queue: self.queue.push(pid),
            next_pid: (self.next_pid + 1) as u16,
            data: self.data.push(data),
            heap_ends: self.heap_ends.push(HEAP_START),
            ..self
        }
    }

    /// Why a fork of the current process fails, if it does.
    pub open spec fn fork_error(self) -> Option<ForkError> {
        if !self.procs[self.current].can_fork() {
            Some(ForkError::NoStackWindow)
        } else if self.next_pid == u16::MAX {
            Some(ForkError::NoPid)
        } else {
            None
        }
    }

    /// The state after a successful fork of the current process into the
    /// page table `page_table`: the child is registered under the next
    /// identifier and queued, and the parent is ready and knows its child.
    pub open spec fn after_fork(self, page_table: PageTableContext) -> Self {
        let parent = self.procs[self.current];
        let child = ProcessId(self.next_pid);
        KernelState {
            procs: self.procs.insert(self.current, parent.forked(child)).insert(
                child,
                parent.child(
                    self.current,
                    parent.vm.unwrap().forked(parent.children.len() as u64, page_table),
                ),
            ),
            queue: self.queue.push(child),
            next_pid: (self.next_pid + 1) as u16,
            ..self
        }
    }

    /// The heap pages that killing the live process `pid` releases, unless
    /// its heap is empty.
    pub open spec fn released_heap(self, pid: ProcessId) -> Option<PageSpan> {
        let heap = self.procs[pid].vm.unwrap().heap;
        let end = self.heap_ends[heap.cell as int];
        if end == heap.base {
            None
        } else {
            Some(PageSpan { start: heap.base, count: heap.pages_to(end) })
        }
    }

    /// Whether a page fault of the current process at `addr` with error code
    /// `err_code` is resolved: the process lives, the fault is no protection
    /// violation, and the address lies in the stack window below the stack.
    pub open spec fn resolves(self, addr: u64, err_code: u64) -> bool {
        &&& self.alive(self.current)
        &&& !is_protection_violation(err_code)
        &&& self.procs[self.current].vm.unwrap().stack.grows_at(addr)
    }

    /// Whether `later` can follow this state: no process has left the
    /// registry, and every process that was dead is still dead with the same
    /// exit code.
    pub open spec fn precedes(self, later: Self) -> bool {
        forall|pid: ProcessId| #[trigger]
            self.procs.contains_key(pid) ==> {
                &&& later.procs.contains_key(pid)
                &&& self.procs[pid].is_dead() ==> later.procs[pid].is_dead()
                    && later.procs[pid].exit_code == self.procs[pid].exit_code
            }
    }
}

/// The process manager.
pub struct ProcessManager {
    processes: BTreeMap<u16, Process>,
    ready_queue: VecDeque<ProcessId>,
    current: ProcessId,
    pids: PidCounter,
    data: DataStore,
    heaps: HeapEnds,
    app_list: Vec<String>,
    selectors: Selectors,
}

impl View for ProcessManager {
    type V = KernelState;

    closed spec fn view(&self) -> KernelState {
        KernelState {
            procs: Map::new(
                |pid: ProcessId| self.processes@.contains_key(pid.0),
                |pid: ProcessId| self.processes@[pid.0]@,
            ),
            queue: self.ready_queue@,
            current: self.current,
            next_pid: self.pids.next(),
            data: self.data@,
            heap_ends: self.heaps@,
            apps: Seq::new(self.app_list@.len(), |i: int| self.app_list@[i]@),
            selectors: self.selectors,
        }
    }
}

impl ProcessManager {
    /// Every process is registered under its own identifier, and no group
    /// of shared data stores a variable twice.
    pub closed spec fn keyed(&self) -> bool {
        &&& forall|key: u16| #[trigger]
            self.processes@.contains_key(key) ==> self.processes@[key].id() == ProcessId(key)
        &&& self.data.unique_names()
    }

    /// The invariant of the manager: see [`KernelState::wf`].
    pub open spec fn wf(&self) -> bool {
        self.keyed() && self@.wf()
    }

    /// Sets up the manager around the first process, which becomes the
    /// current one and is marked running.
    ///
    /// `counter`, `store` and `ends` are the ones the first process was made
    /// with; `selectors` are the segment selectors that spawned processes
    /// start with.
    pub fn new(
        init: Process,
        app_list: Vec<String>,
        counter: PidCounter,
        store: DataStore,
        ends: HeapEnds,
        selectors: Selectors,
    ) -> (manager: Self)
        requires
            init@.wf(),
            !init@.is_dead(),
            init.id().0 < counter.next(),
            store.wf(),
            ends.wf(),
            init@.data.unwrap().0 < store@.len(),
            init@.vm.unwrap().heap.wf(&ends),
        ensures
            manager.wf(),
            manager@.procs == Map::<ProcessId, ProcessState>::empty().insert(
                init.id(),
                init@.restored(),
            ),
            manager@.queue == Seq::<ProcessId>::empty(),
            manager@.current == init.id(),
            manager@.next_pid == counter.next(),
            manager@.data == store@,
            manager@.heap_ends == ends@,
            manager@.apps == Seq::new(app_list@.len(), |i: int| app_list@[i]@),
            manager@.selectors == selectors,
    {
        let mut init = init;
        let pid = init.pid();
        init.write().resume();
        let mut processes = BTreeMap::new();
        processes.insert(pid.0, init);
        let manager = ProcessManager {
            processes,
            ready_queue: VecDeque::new(),
            current: pid,
            pids: counter,
            data: store,
            heaps: ends,
            app_list,
            selectors,
        };
        proof {
            assert(manager@.procs =~= Map::<ProcessId, ProcessState>::empty().insert(
                pid,
                init@,
            ));
            assert(manager@.holds(pid));
        }
        manager
    }

    /// Names of the programs that can be spawned.
    pub fn app_list(&self) -> (apps: &Vec<String>)
        ensures
            apps@.len() == self@.apps.len(),
            forall|i: int| 0 <= i < apps@.len() ==> apps@[i]@ == self@.apps[i],
    {
        &self.app_list
    }

    /// Identifier of the process that owns the processor.
    pub fn current_pid(&self) -> (pid: ProcessId)
        ensures
            pid == self@.current,
    {
        self.current
    }

    /// The process registered under `pid`, if there is one.
    pub fn get_proc(&self, pid: ProcessId) -> (process: Option<&Process>)
        requires
            self.wf(),
        ensures
            process.is_some() == self@.procs.contains_key(pid),
            process matches Some(p) ==> p@ == self@.procs[pid] && p.id() == pid,
    {
        self.processes.get(&pid.0)
    }

    /// The process that owns the processor.
    pub fn current(&self) -> (process: &Process)
        requires
            self.wf(),
        ensures
            process@ == self@.procs[self@.current],
            process.id() == self@.current,
    {
        self.processes.get(&self.current.0).unwrap()
    }

    /// Identifier of the process that a page fault is to be blamed on: the
    /// current one.
    pub fn get_page_fault_generator(&self) -> (pid: ProcessId)
        ensures
            pid == self@.current,
    {
        self.current
    }

    /// The ready queue, next to run first.
    pub fn ready_queue(&self) -> (queue: Vec<ProcessId>)
        ensures
            queue@ == self@.queue,
    {
        let mut queue: Vec<ProcessId> = Vec::new();
        let mut i: usize = 0;
        while i < self.ready_queue.len()
            invariant
                i <= self.ready_queue@.len(),
                queue@ == self.ready_queue@.take(i as int),
            decreases self.ready_queue@.len() - i,
        {
            queue.push(self.ready_queue[i]);
            proof {
                assert(self.ready_queue@.take(i + 1) == self.ready_queue@.take(i as int).push(
                    self.ready_queue@[i as int],
                ));
            }
            i = i + 1;
        }
        proof {
            assert(self.ready_queue@.take(i as int) == self.ready_queue@);
        }
        queue
    }

    /// Appends `pid` to the ready queue.
    pub fn push_ready(&mut self, pid: ProcessId)
        requires
            old(self).wf(),
        ensures
            final(self).wf(),
            final(self)@ == (KernelState { queue: old(self)@.queue.push(pid), ..old(self)@ }),
            old(self)@.precedes(final(self)@),
    {
        self.ready_queue.push_back(pid);
        proof {
            assert(self@.procs =~= old(self)@.procs);
            assert forall|p: ProcessId| self@.procs.contains_key(p) implies #[trigger] self@.holds(
                p,
            ) by {
                assert(old(self)@.holds(p));
            }
        }
    }

    /// Whether `pid` is registered and not dead.
    pub fn still_alive(&self, pid: ProcessId) -> (alive: bool)
        requires
            self.wf(),
        ensures
            alive == self@.alive(pid),
    {
        match self.processes.get(&pid.0) {
            Some(process) => process.read().status() != ProgramStatus::Dead,
            None => false,
        }
    }

    /// Exit code of `pid`: present once the process is dead, absent while it
    /// lives and for an identifier that was never registered.
    pub fn get_exit_code(&self, pid: ProcessId) -> (code: Option<isize>)
        requires
            self.wf(),
        ensures
            code == (if self@.procs.contains_key(pid) {
                self@.procs[pid].exit_code
            } else {
                None
            }),
            code.is_some() == (self@.procs.contains_key(pid) && self@.procs[pid].is_dead()),
    {
        proof {
            if self@.procs.contains_key(pid) {
                assert(self@.holds(pid));
            }
        }
        match self.processes.get(&pid.0) {
            Some(process) => process.read().exit_code(),
            None => None,
        }
    }

    /// Where the wait for the end of `pid` stands: the process has exited
    /// with a code, it is still alive, or it never existed.
    pub fn poll_exit(&self, pid: ProcessId) -> (outcome: WaitOutcome)
        requires
            self.wf(),
        ensures
            outcome == self@.wait_outcome(pid),
    {
        proof {
            if self@.procs.contains_key(pid) {
                assert(self@.holds(pid));
            }
        }
        match self.processes.get(&pid.0) {
            Some(process) => match process.read().exit_code() {
                Some(code) => WaitOutcome::Exited(code),
                None => WaitOutcome::StillAlive,
            },
            None => WaitOutcome::NotFound,
        }
    }

    /// Exit code of `pid` if the process is dead, -1 otherwise.
    pub fn wait_pid(&self, pid: ProcessId) -> (status: isize)
        requires
            self.wf(),
        ensures
            status == (if self@.procs.contains_key(pid) && self@.procs[pid].is_dead() {
                self@.procs[pid].exit_code.unwrap()
            } else {
                -1isize
            }),
    {
        match self.get_exit_code(pid) {
            Some(code) => code,
            None => -1,
        }
    }

    /// The store and the table of a well-formed manager are well formed.
    proof fn lemma_parts_wf(&self)
        requires
            self.wf(),
        ensures
            self.data.wf(),
            self.heaps.wf(),
    {
        assert forall|i: int| 0 <= i < self.data@.len() implies (#[trigger] self.data@[i]).wf() by {
            assert(self@.data[i].wf());
        }
        assert(self.data.wf());
        assert forall|i: int| 0 <= i < self.heaps@.len() implies end_in_range(
            HEAP_START,
            #[trigger] self.heaps@[i],
        ) by {
            assert(end_in_range(HEAP_START, self@.heap_ends[i]));
        }
    }

    /// Takes the process `pid` out of the registry.
    fn take(&mut self, pid: ProcessId) -> (process: Process)
        requires
            old(self).keyed(),
            old(self)@.procs.contains_key(pid),
        ensures
            process@ == old(self)@.procs[pid],
            process.id() == pid,
            final(self).processes@ == old(self).processes@.remove(pid.0),
            final(self).ready_queue == old(self).ready_queue,
            final(self).current == old(self).current,
            final(self).pids == old(self).pids,
            final(self).data == old(self).data,
            final(self).heaps == old(self).heaps,
            final(self).app_list == old(self).app_list,
            final(self).selectors == old(self).selectors,
    {
        self.processes.remove(&pid.0).unwrap()
    }

    /// Puts a process into the registry, under its own identifier.
    fn put(&mut self, process: Process)
        ensures
            final(self).processes@ == old(self).processes@.insert(process.id().0, process),
            final(self).ready_queue == old(self).ready_queue,
            final(self).current == old(self).current,
            final(self).pids == old(self).pids,
            final(self).data == old(self).data,
            final(self).heaps == old(self).heaps,
            final(self).app_list == old(self).app_list,
            final(self).selectors == old(self).selectors,
    {
        let key = process.pid().0;
        self.processes.insert(key, process);
    }

    /// Records that the current process has been interrupted with the trap
    /// frame `context`.
    ///
    /// The process gets one more tick and the new context. If it was
    /// running it becomes ready. Unless it is dead it goes to the back of
    /// the ready queue; the entry of a blocked process is stale and is
    /// dropped by [`ProcessManager::switch_next`] if the process is still
    /// blocked when its turn comes.
    pub fn save_current(&mut self, context: &ProcessContext)
        requires
            old(self).wf(),
        ensures
            final(self).wf(),
            final(self)@ == old(self)@.after_save(*context),
            old(self)@.precedes(final(self)@),
    {
        let pid = self.current;
        proof {
            assert(self@.holds(pid));
        }
        let mut process = self.take(pid);
        let inner = process.write();
        inner.tick();
        inner.save(context);
        let dead = inner.status() == ProgramStatus::Dead;
        self.put(process);
        if !dead {
            self.ready_queue.push_back(pid);
        }
        proof {
            let before = old(self)@;
            let after = before.after_save(*context);
            assert(self@.procs =~= after.procs);
            assert(self@ == after);
            assert forall|p: ProcessId| self@.procs.contains_key(p) implies #[trigger] self@.holds(
                p,
            ) by {
                assert(before.holds(p));
            }
        }
    }

    /// Records where the current process stood when it gave up the
    /// processor with the trap frame `context`, without queueing it: the
    /// process gets one more tick and the new context and keeps its status.
    /// This is for a process that has just been blocked and must not run
    /// again before it is woken.
    pub fn park_current(&mut self, context: &ProcessContext)
        requires
            old(self).wf(),
        ensures
            final(self).wf(),
            final(self)@ == old(self)@.after_park(*context),
            old(self)@.precedes(final(self)@),
    {
        let pid = self.current;
        proof {
            assert(self@.holds(pid));
        }
        let mut process = self.take(pid);
        process.write().park(context);
        self.put(process);
        proof {
            let before = old(self)@;
            let after = before.after_park(*context);
            assert(self@.procs =~= after.procs);
            assert(self@ == after);
            assert forall|p: ProcessId| self@.procs.contains_key(p) implies #[trigger] self@.holds(
                p,
            ) by {
                assert(before.holds(p));
            }
        }
    }

    /// Gives the processor to the next ready process.
    ///
    /// Entries are taken from the head of the ready queue until one names a
    /// registered process whose status is `Ready`; entries that do not are
    /// dropped. That process becomes running and current, its context goes
    /// into the trap frame `context`, and its identifier and page table are
    /// returned. The process that was current stops running if it still
    /// did. If the queue runs empty, nothing but the queue changes and the
    /// result is `NoRunnableProcess`.
    pub fn switch_next(&mut self, context: &mut ProcessContext) -> (next: Result<
        Switched,
        SchedulerError,
    >)
        requires
            old(self).wf(),
        ensures
            final(self).wf(),
            final(self)@ == old(self)@.after_switch(),
            old(self)@.precedes(final(self)@),
            next == old(self)@.switch_outcome(),
            *final(context) == old(self)@.switch_frame(*old(context)),
            match next {
                Ok(switched) => {
                    &&& old(self)@.stale_prefix() < old(self)@.queue.len()
                    &&& switched.pid == old(self)@.queue[old(self)@.stale_prefix() as int]
                    &&& old(self)@.runnable(switched.pid)
                    &&& switched.page_table == old(self)@.procs[switched.pid].vm.unwrap().page_table
                    &&& *final(context) == old(self)@.procs[switched.pid].context
                    &&& final(self)@.procs[switched.pid].status == ProgramStatus::Running
                },
                Err(error) => {
                    &&& error == SchedulerError::NoRunnableProcess
                    &&& old(self)@.stale_prefix() >= old(self)@.queue.len()
                    &&& *final(context) == *old(context)
                },
            },
    {
        let ghost start = self@;
        let ghost mut dropped: int = 0;
        let mut next = self.current;
        proof {
            assert(start.queue.skip(0) =~= start.queue);
        }
        loop
            invariant_except_break
                0 <= dropped <= start.queue.len(),
                self@ == (KernelState { queue: start.queue.skip(dropped), ..start }),
                start.stale_prefix() == dropped + self@.stale_prefix(),
            invariant
                self.keyed(),
                start == old(self)@,
                start.wf(),
                *context == *old(context),
            ensures
                self.keyed(),
                0 <= dropped < start.queue.len(),
                self@ == (KernelState { queue: start.queue.skip(dropped + 1), ..start }),
                start.stale_prefix() == dropped,
                next == start.queue[dropped],
                start.runnable(next),
                *context == *old(context),
            decreases self@.queue.len(),
        {
            let ghost before = self@;
            let head = match self.ready_queue.pop_front() {
                Some(pid) => pid,
                None => {
                    proof {
                        assert(self@.procs =~= start.procs);
                        assert(self@.queue =~= Seq::<ProcessId>::empty());
                        assert(self@ == start.after_switch());
                        assert forall|p: ProcessId|
                            self@.procs.contains_key(p) implies #[trigger] self@.holds(p) by {
                            assert(start.holds(p));
                        }
                    }
                    return Err(SchedulerError::NoRunnableProcess);
                },
            };
            proof {
                assert(self@.procs =~= start.procs);
                assert(head == start.queue[dropped]);
                assert(before.queue.drop_first() =~= start.queue.skip(dropped + 1));
                assert(self@.queue =~= start.queue.skip(dropped + 1));
                assert(self@ == (KernelState { queue: before.queue.drop_first(), ..before }));
            }
            let runnable = match self.processes.get(&head.0) {
                Some(process) => process.read().is_ready(),
                None => false,
            };
            assert(runnable == before.runnable(head));
            if runnable {
                next = head;
                break ;
            }
            proof {
                dropped = dropped + 1;
            }
        }
        let previous = self.current;
        proof {
            assert(start.holds(previous));
            assert(start.holds(next));
        }
        let mut process = self.take(previous);
        let kept = *process.read().context();
        process.write().save(&kept);
        self.put(process);
        let mut process = self.take(next);
        let page_table = process.write().restore(context);
        self.put(process);
        self.current = next;
        proof {
            let after = start.after_switch();
            assert(self@.procs =~= after.procs);
            assert(self@ == after);
            assert forall|p: ProcessId| self@.procs.contains_key(p) implies #[trigger] self@.holds(
                p,
            ) by {
                assert(start.holds(p));
            }
        }
        Ok(Switched { pid: next, page_table })
    }

    /// Kills the process `pid` with exit code `ret`.
    ///
    /// An unknown identifier and a process that is dead already are
    /// reported and change nothing. A live process becomes dead for good:
    /// its exit code is `ret`, its data handle and its address space are
    /// given up, its heap is emptied, and what has to be unmapped is
    /// returned.
    pub fn kill(&mut self, pid: ProcessId, ret: isize) -> (outcome: KillOutcome)
        requires
            old(self).wf(),
        ensures
            final(self).wf(),
            old(self)@.precedes(final(self)@),
            match outcome {
                KillOutcome::NotFound => !old(self)@.procs.contains_key(pid) && final(self)@
                    == old(self)@,
                KillOutcome::AlreadyDead => old(self)@.procs.contains_key(pid) && old(self)@.procs[pid].is_dead() && final(self)@ == old(self)@,
                KillOutcome::Killed(release) => {
                    &&& old(self)@.alive(pid)
                    &&& final(self)@ == old(self)@.after_kill(pid, ret)
                    &&& release.page_table == old(self)@.procs[pid].vm.unwrap().page_table
                    &&& release.stack == old(self)@.procs[pid].vm.unwrap().stack.span()
                    &&& release.heap == old(self)@.released_heap(pid)
                },
            },
    {
        let alive = match self.processes.get(&pid.0) {
            Some(process) => process.read().status() != ProgramStatus::Dead,
            None => {
                return KillOutcome::NotFound;
            },
        };
        if !alive {
            return KillOutcome::AlreadyDead;
        }
        proof {
            assert(self@.holds(pid));
        }
        let mut process = self.take(pid);
        let vm = process.kill(ret).unwrap();
        self.put(process);
        let release = vm.clean_up(&mut self.heaps);
        proof {
            let before = old(self)@;
            let after = before.after_kill(pid, ret);
            assert(self@.procs =~= after.procs);
            assert(self@ == after);
            assert forall|p: ProcessId| self@.procs.contains_key(p) implies #[trigger] self@.holds(
                p,
            ) by {
                assert(before.holds(p));
            }
        }
        KillOutcome::Killed(release)
    }

    /// Kills the current process; see [`ProcessManager::kill`].
    pub fn kill_self(&mut self, ret: isize) -> (outcome: KillOutcome)
        requires
            old(self).wf(),
        ensures
            final(self).wf(),
            old(self)@.precedes(final(self)@),
            match outcome {
                KillOutcome::NotFound => false,
                KillOutcome::AlreadyDead => old(self)@.procs[old(self)@.current].is_dead()
                    && final(self)@ == old(self)@,
                KillOutcome::Killed(release) => {
                    &&& old(self)@.alive(old(self)@.current)
                    &&& final(self)@ == old(self)@.after_kill(old(self)@.current, ret)
                    &&& release.page_table == old(self)@.procs[old(self)@.current].vm.unwrap().page_table
                    &&& release.stack == old(self)@.procs[old(self)@.current].vm.unwrap().stack.span()
                    &&& release.heap == old(self)@.released_heap(old(self)@.current)
                },
            },
    {
        self.kill(self.current, ret)
    }

    /// Kills the current process; see [`ProcessManager::kill`].
    pub fn kill_current(&mut self, ret: isize) -> (outcome: KillOutcome)
        requires
            old(self).wf(),
        ensures
            final(self).wf(),
            old(self)@.precedes(final(self)@),
            match outcome {
                KillOutcome::NotFound => false,
                KillOutcome::AlreadyDead => old(self)@.procs[old(self)@.current].is_dead()
                    && final(self)@ == old(self)@,
                KillOutcome::Killed(release) => {
                    &&& old(self)@.alive(old(self)@.current)
                    &&& final(self)@ == old(self)@.after_kill(old(self)@.current, ret)
                    &&& release.page_table == old(self)@.procs[old(self)@.current].vm.unwrap().page_table
                    &&& release.stack == old(self)@.procs[old(self)@.current].vm.unwrap().stack.span()
                    &&& release.heap == old(self)@.released_heap(old(self)@.current)
                },
            },
    {
        self.kill(self.current, ret)
    }

    /// Decides a page fault of the current process at `addr` with the error
    /// code `err_code`.
    ///
    /// The fault is resolved exactly when the process lives, the fault is no
    /// protection violation, and `addr` lies in the stack window below the
    /// stack. The stack then reaches down to the page of `addr`, and the
    /// pages that have to be backed with frames are returned. Any other
    /// fault changes nothing and returns `None`.
    pub fn handle_page_fault(&mut self, addr: u64, err_code: u64) -> (grown: Option<PageSpan>)
        requires
            old(self).wf(),
        ensures
            final(self).wf(),
            old(self)@.precedes(final(self)@),
            grown.is_some() == old(self)@.resolves(addr, err_code),
            grown.is_none() ==> final(self)@ == old(self)@,
            grown matches Some(span) ==> {
                let state = old(self)@.procs[old(self)@.current];
                &&& final(self)@ == old(self)@.with_proc(
                    old(self)@.current,
                    ProcessState {
                        vm: Some(
                            ProcessVm {
                                stack: state.vm.unwrap().stack.grown_to(addr),
                                ..state.vm.unwrap()
                            },
                        ),
                        ..state
                    },
                )
                &&& span.wf()
                &&& span.start == crate::memory::page_floor(addr)
                &&& span.end() == state.vm.unwrap().stack.low()
                &&& span.covers(addr)
            },
    {
        let pid = self.current;
        proof {
            assert(self@.holds(pid));
        }
        if protection_violation(err_code) {
            return None;
        }
        if self.current().read().status() == ProgramStatus::Dead {
            return None;
        }
        let mut process = self.take(pid);
        let grown = process.write().handle_page_fault(addr);
        self.put(process);
        proof {
            let before = old(self)@;
            assert(self@.procs =~= before.procs.insert(pid, self@.procs[pid]));
            if grown.is_none() {
                assert(self@.procs =~= before.procs);
            }
            assert forall|p: ProcessId| self@.procs.contains_key(p) implies #[trigger] self@.holds(
                p,
            ) by {
                assert(before.holds(p));
            }
        }
        grown
    }

    /// Registers a new process for an image that the loader has placed in
    /// the page table `page_table`; `image` is the loader's result, `None`
    /// if loading failed.
    ///
    /// On success the process has the next identifier, the lower-cased
    /// name, the given parent, the data `proc_data` or that of a new group,
    /// an address space with the default stack in the window its identifier
    /// selects, and a context that enters the image. It is ready and at
    /// the back of the ready queue. The stack pages that have to be backed
    /// with frames are returned. On failure nothing changes.
    pub fn spawn(
        &mut self,
        image: Option<LoadedImage>,
        name: String,
        parent: Option<ProcessId>,
        proc_data: Option<ProcessData>,
        page_table: PageTableContext,
    ) -> (spawned: Result<Spawned, SpawnError>)
        requires
            old(self).wf(),
            proc_data matches Some(data) ==> data.wf(),
        ensures
            final(self).wf(),
            old(self)@.precedes(final(self)@),
            match spawned {
                Ok(new) => {
                    &&& old(self)@.spawn_error(image).is_none()
                    &&& new.pid == ProcessId(old(self)@.next_pid)
                    &&& new.page_table == page_table
                    &&& new.stack == old(self)@.spawned_vm(image.unwrap(), page_table).stack.span()
                    &&& new.stack.wf()
                    &&& final(self)@ == old(self)@.after_spawn(
                        image.unwrap(),
                        name@,
                        parent,
                        initial_data(proc_data),
                        page_table,
                    )
                },
                Err(error) => {
                    &&& old(self)@.spawn_error(image) == Some(error)
                    &&& final(self)@ == old(self)@
                },
            },
    {
        let image = match image {
            Some(image) => image,
            None => {
                return Err(SpawnError::ImageLoad);
            },
        };
        if image.code_bytes > CODE_MAX {
            return Err(SpawnError::ImageTooLarge);
        }
        if !self.pids.has_next() {
            return Err(SpawnError::NoPid);
        }
        if Stack::for_pid(ProcessId(self.pids.peek())).is_none() {
            return Err(SpawnError::NoStackWindow);
        }
        proof {
            self.lemma_parts_wf();
        }
        let ghost group = initial_data(proc_data);
        let vm = ProcessVm::new(page_table, &mut self.heaps);
        let mut process = Process::new(name, parent, vm, proc_data, &mut self.pids, &mut self.data);
        let pid = process.pid();
        let inner = process.write();
        let stack = inner.load_elf(&image, pid).unwrap();
        let top = inner.vm().stack.init_top();
        inner.init_stack_frame(image.entry, top, self.selectors);
        self.put(process);
        self.ready_queue.push_back(pid);
        proof {
            let before = old(self)@;
            let after = before.after_spawn(image, name@, parent, group, page_table);
            assert(self@.procs[pid].vm.unwrap().stack == before.spawned_vm(
                image,
                page_table,
            ).stack);
            assert(self@.procs[pid] == before.spawned_proc(image, name@, parent, page_table));
            assert(self@.procs =~= after.procs);
            assert(self@ == after);
            assert forall|p: ProcessId| self@.procs.contains_key(p) implies #[trigger] self@.holds(
                p,
            ) by {
                if p != pid {
                    assert(before.holds(p));
                }
            }
            assert forall|p: ProcessId| #[trigger] before.procs.contains_key(p) implies p != pid by {
                assert(before.holds(p));
            }
        }
        Ok(Spawned { pid, stack, page_table })
    }

    /// Forks the current process, which has to be alive, into the page
    /// table `page_table` that the caller has forked from the parent's.
    ///
    /// On success the child is registered under the next identifier and
    /// queued; see [`Process::fork`] for what parent and child look like.
    /// The stack pages of the parent and those of the child are returned:
    /// the child's have to be backed with frames and filled with a copy of
    /// the parent's. On failure nothing changes.
    pub fn fork(&mut self, page_table: PageTableContext) -> (forked: Result<Forked, ForkError>)
        requires
            old(self).wf(),
            old(self)@.alive(old(self)@.current),
        ensures
            final(self).wf(),
            old(self)@.precedes(final(self)@),
            match forked {
                Ok(new) => {
                    &&& old(self)@.fork_error().is_none()
                    &&& new.child == ProcessId(old(self)@.next_pid)
                    &&& new.page_table == page_table
                    &&& new.parent_stack == old(self)@.procs[old(self)@.current].vm.unwrap().stack.span()
                    &&& new.child_stack == final(self)@.procs[new.child].vm.unwrap().stack.span()
                    &&& new.child_stack.count == new.parent_stack.count
                    &&& final(self)@ == old(self)@.after_fork(page_table)
                },
                Err(error) => {
                    &&& old(self)@.fork_error() == Some(error)
                    &&& final(self)@ == old(self)@
                },
            },
    {
        let pid = self.current;
        proof {
            assert(self@.holds(pid));
        }
        let mut parent = self.take(pid);
        let parent_stack = parent.read().vm().stack.pages();
        let child = parent.fork(page_table, &mut self.pids);
        self.put(parent);
        match child {
            Ok(child) => {
                let child_pid = child.pid();
                let child_stack = child.read().vm().stack.pages();
                self.put(child);
                self.ready_queue.push_back(child_pid);
                proof {
                    let before = old(self)@;
                    let after = before.after_fork(page_table);
                    assert(self@.procs =~= after.procs);
                    assert(self@ == after);
                    assert forall|p: ProcessId|
                        self@.procs.contains_key(p) implies #[trigger] self@.holds(p) by {
                        if p != child_pid {
                            assert(before.holds(p));
                        }
                    }
                    assert forall|p: ProcessId| #[trigger]
                        before.procs.contains_key(p) implies p != child_pid by {
                        assert(before.holds(p));
                    }
                }
                Ok(Forked { child: child_pid, parent_stack, child_stack, page_table })
            },
            Err(error) => {
                proof {
                    let before = old(self)@;
                    assert(self@.procs =~= before.procs);
                    assert(self@ == before);
                    assert forall|p: ProcessId|
                        self@.procs.contains_key(p) implies #[trigger] self@.holds(p) by {
                        assert(before.holds(p));
                    }
                }
                Err(error)
            },
        }
    }
}

/// A successful spawn.
#[derive(Clone, Copy, Debug, PartialEq, Eq, Structural)]
pub struct Spawned {
    /// Identifier of the new process.
    pub pid: ProcessId,
    /// The stack pages that have to be backed with frames.
    pub stack: PageSpan,
    /// The page table in which to map them.
    pub page_table: PageTableContext,
}

/// Why a process could not be spawned.
#[derive(Clone, Copy, Debug, PartialEq, Eq, Structural)]
pub enum SpawnError {
    /// The image could not be loaded.
    ImageLoad,
    /// The image is larger than an address space accounts for.
    ImageTooLarge,
    /// All process identifiers have been handed out.
    NoPid,
    /// The next identifier selects no stack window.
    NoStackWindow,
}

/// A successful fork.
#[derive(Clone, Copy, Debug, PartialEq, Eq, Structural)]
pub struct Forked {
    /// Identifier of the child.
    pub child: ProcessId,
    /// The stack pages of the parent, to be copied from.
    pub parent_stack: PageSpan,
    /// The stack pages of the child, to be mapped and copied to.
    pub child_stack: PageSpan,
    /// The page table of the child.
    pub page_table: PageTableContext,
}

impl ProcessManager {
    /// Handle of the data of the current process, which has to be alive.
    fn current_data(&self) -> (handle: DataHandle)
        requires
            self.wf(),
            self@.alive(self@.current),
        ensures
            Some(handle) == self@.procs[self@.current].data,
            self.data.holds(handle),
            self.data.wf(),
            self.heaps.wf(),
    {
        proof {
            assert(self@.holds(self.current));
            self.lemma_parts_wf();
        }
        self.current().read().data().unwrap()
    }

    /// Blocks the process `pid`, if it is registered and alive.
    pub fn block(&mut self, pid: ProcessId)
        requires
            old(self).wf(),
        ensures
            final(self).wf(),
            final(self)@ == old(self)@.after_block(pid),
            old(self)@.precedes(final(self)@),
    {
        if self.processes.contains_key(&pid.0) {
            proof {
                assert(self@.holds(pid));
            }
            let mut process = self.take(pid);
            process.write().block();
            self.put(process);
            proof {
                let before = old(self)@;
                assert(self@.procs =~= before.after_block(pid).procs);
                assert forall|p: ProcessId|
                    self@.procs.contains_key(p) implies #[trigger] self@.holds(p) by {
                    assert(before.holds(p));
                }
            }
        }
    }

    /// Wakes the process `pid`: if it is blocked it becomes ready and goes
    /// to the back of the ready queue. A process that is not blocked, dead
    /// ones included, and an unknown identifier are left alone.
    pub fn wake_up(&mut self, pid: ProcessId)
        requires
            old(self).wf(),
        ensures
            final(self).wf(),
            final(self)@ == old(self)@.after_wake(pid),
            old(self)@.precedes(final(self)@),
    {
        let blocked = match self.processes.get(&pid.0) {
            Some(process) => process.read().status() == ProgramStatus::Blocked,
            None => false,
        };
        if blocked {
            proof {
                assert(self@.holds(pid));
            }
            let mut process = self.take(pid);
            process.write().pause();
            self.put(process);
            self.ready_queue.push_back(pid);
            proof {
                let before = old(self)@;
                assert(self@.procs =~= before.after_wake(pid).procs);
                assert forall|p: ProcessId|
                    self@.procs.contains_key(p) implies #[trigger] self@.holds(p) by {
                    assert(before.holds(p));
                }
            }
        }
    }

    /// Creates a semaphore with `value` free grants under `key` for the
    /// current process, which has to be alive, and its fork lineage.
    /// Returns `false`, with nothing changed, when the key is taken.
    pub fn sem_new(&mut self, key: u32, value: usize) -> (created: bool)
        requires
            old(self).wf(),
            old(self)@.alive(old(self)@.current),
        ensures
            final(self).wf(),
            old(self)@.precedes(final(self)@),
            created == !old(self)@.data_of(old(self)@.current).semaphores.contains_key(key),
            final(self)@ == old(self)@.with_data(
                old(self)@.current,
                old(self)@.data_of(old(self)@.current).after_new(key, value),
            ),
    {
        let handle = self.current_data();
        let created = self.data.get_mut(handle).sem_new(key, value);
        proof {
            self.lemma_data_changed(old(self));
        }
        created
    }

    /// Destroys the semaphore under `key` of the current process, which
    /// has to be alive. Returns `false` when there is none.
    pub fn sem_remove(&mut self, key: u32) -> (removed: bool)
        requires
            old(self).wf(),
            old(self)@.alive(old(self)@.current),
        ensures
            final(self).wf(),
            old(self)@.precedes(final(self)@),
            removed == old(self)@.data_of(old(self)@.current).semaphores.contains_key(key),
            final(self)@ == old(self)@.with_data(
                old(self)@.current,
                old(self)@.data_of(old(self)@.current).after_remove(key),
            ),
    {
        let handle = self.current_data();
        let removed = self.data.get_mut(handle).sem_remove(key);
        proof {
            self.lemma_data_changed(old(self));
        }
        removed
    }

    /// Lets the current process, which has to be alive, wait on the
    /// semaphore under `key`.
    ///
    /// With a free grant the semaphore counts down and the answer is
    /// `Done`. Without one the process joins the queue of the semaphore and
    /// is blocked, and the answer is `Block`: the caller has to switch to
    /// another process. Without such a semaphore the answer is `NotExist`.
    pub fn sem_wait(&mut self, key: u32) -> (result: SemaphoreResult)
        requires
            old(self).wf(),
            old(self)@.alive(old(self)@.current),
        ensures
            final(self).wf(),
            old(self)@.precedes(final(self)@),
            result == old(self)@.sem_wait_result(key),
            final(self)@ == old(self)@.after_sem_wait(key),
    {
        let pid = self.current;
        let handle = self.current_data();
        let result = self.data.get_mut(handle).sem_wait(key, pid);
        proof {
            self.lemma_data_changed(old(self));
        }
        match result {
            SemaphoreResult::Block(_) => {
                self.block(pid);
            },
            _ => {},
        }
        result
    }

    /// Lets the current process, which has to be alive, signal the
    /// semaphore under `key`.
    ///
    /// With a process waiting, the head of the queue leaves it and is woken
    /// as [`ProcessManager::wake_up`] says, and the answer is `WakeUp`.
    /// Otherwise the semaphore counts up and the answer is `Done`. Without
    /// such a semaphore the answer is `NotExist`.
    pub fn sem_signal(&mut self, key: u32) -> (result: SemaphoreResult)
        requires
            old(self).wf(),
            old(self)@.alive(old(self)@.current),
        ensures
            final(self).wf(),
            old(self)@.precedes(final(self)@),
            result == old(self)@.sem_signal_result(key),
            final(self)@ == old(self)@.after_sem_signal(key),
    {
        let handle = self.current_data();
        let result = self.data.get_mut(handle).sem_signal(key);
        proof {
            self.lemma_data_changed(old(self));
        }
        match result {
            SemaphoreResult::WakeUp(pid) => {
                self.wake_up(pid);
            },
            _ => {},
        }
        result
    }

    /// Free grants of the semaphore under `key` of the current process,
    /// which has to be alive, if there is such a semaphore.
    pub fn sem_count(&self, key: u32) -> (count: Option<usize>)
        requires
            self.wf(),
            self@.alive(self@.current),
        ensures
            count.is_some() == self@.data_of(self@.current).semaphores.contains_key(key),
            count matches Some(c) ==> c == self@.data_of(self@.current).semaphores[key].count,
    {
        let handle = self.current_data();
        self.data.get(handle).sem_count(key)
    }

    /// After a change to the shared data alone, the manager is as well
    /// formed as before.
    proof fn lemma_data_changed(&self, before: &Self)
        requires
            before.wf(),
            self.data.wf(),
            self.processes == before.processes,
            self.ready_queue == before.ready_queue,
            self.current == before.current,
            self.pids == before.pids,
            self.heaps == before.heaps,
            self.app_list == before.app_list,
            self.selectors == before.selectors,
            self.data@.len() == before.data@.len(),
        ensures
            self.wf(),
            self@ == (KernelState { data: self.data@, ..before@ }),
            before@.precedes(self@),
    {
        assert(self@.procs =~= before@.procs);
        assert forall|p: ProcessId| self@.procs.contains_key(p) implies #[trigger] self@.holds(
            p,
        ) by {
            assert(before@.holds(p));
        }
    }

    /// Value of the variable `key` in the environment of the current
    /// process, which has to be alive.
    pub fn env(&self, key: &str) -> (value: Option<String>)
        requires
            self.wf(),
            self@.alive(self@.current),
        ensures
            match value {
                Some(v) => self@.data_of(self@.current).vars.contains_key(key@) && v@
                    == self@.data_of(self@.current).vars[key@],
                None => !self@.data_of(self@.current).vars.contains_key(key@),
            },
    {
        let handle = self.current_data();
        self.data.get(handle).env(key)
    }

    /// Sets the variable `key` to `val` in the environment of the current
    /// process, which has to be alive. The environment is shared: every
    /// process of the fork lineage sees the new value.
    pub fn set_env(&mut self, key: &str, val: &str)
        requires
            old(self).wf(),
            old(self)@.alive(old(self)@.current),
        ensures
            final(self).wf(),
            old(self)@.precedes(final(self)@),
            final(self)@ == old(self)@.with_data(
                old(self)@.current,
                old(self)@.data_of(old(self)@.current).with_var(key@, val@),
            ),
    {
        let handle = self.current_data();
        self.data.get_mut(handle).put_env(key, val);
        proof {
            self.lemma_data_changed(old(self));
        }
    }

    /// The resource behind descriptor `fd` of the current process, which
    /// has to be alive.
    pub fn handle(&self, fd: u8) -> (resource: Option<Resource>)
        requires
            self.wf(),
            self@.alive(self@.current),
        ensures
            resource == (if self@.data_of(self@.current).resources.contains_key(fd) {
                Some(self@.data_of(self@.current).resources[fd])
            } else {
                None
            }),
    {
        let handle = self.current_data();
        self.data.get(handle).handle(fd)
    }

    /// Reads from descriptor `fd` of the current process, which has to be
    /// alive, into `buf`; see [`Resource::read`]. Returns the number of
    /// bytes read, or -1.
    pub fn read(&self, fd: u8, input: &mut InputBuffer, buf: &mut [u8]) -> (result: isize)
        requires
            self.wf(),
            self@.alive(self@.current),
        ensures
            final(input).capacity() == old(input).capacity(),
            result == self@.data_of(self@.current).read_result(
                fd,
                old(input)@,
                old(buf)@.len(),
            ),
            self@.data_of(self@.current).read_takes_key(fd, old(input)@, old(buf)@.len()) ==> {
                &&& final(buf)@ == old(buf)@.update(0, old(input)@[0])
                &&& final(input)@ == old(input)@.drop_first()
            },
            !self@.data_of(self@.current).read_takes_key(fd, old(input)@, old(buf)@.len()) ==> {
                &&& final(buf)@ == old(buf)@
                &&& final(input)@ == old(input)@
            },
    {
        let handle = self.current_data();
        self.data.get(handle).read(fd, input, buf)
    }

    /// Number of bytes of `buf` that descriptor `fd` of the current
    /// process, which has to be alive, accepts, or -1; see
    /// [`Resource::write`].
    pub fn write(&self, fd: u8, buf: &[u8]) -> (result: isize)
        requires
            self.wf(),
            self@.alive(self@.current),
        ensures
            result == self@.data_of(self@.current).write_result(fd, buf@.len() as usize),
    {
        let handle = self.current_data();
        self.data.get(handle).write(fd, buf)
    }

    /// Answers a `brk` request of the current process, which has to be
    /// alive, without changing anything; see [`Heap::brk`].
    pub fn brk(&self, new_end: Option<u64>) -> (outcome: BrkOutcome)
        requires
            self.wf(),
            self@.alive(self@.current),
        ensures
            outcome == self@.current_heap().brk_outcome(
                self@.heap_ends[self@.current_heap().cell as int],
                new_end,
            ),
    {
        proof {
            assert(self@.holds(self.current));
            self.lemma_parts_wf();
        }
        self.current().read().vm().brk(new_end, &self.heaps)
    }

    /// Records `new_end` as the heap end of the current process, which has
    /// to be alive, once the page-table edit that [`ProcessManager::brk`]
    /// asked for has succeeded.
    ///
    /// Returns the new end, or `None`, with nothing changed, for an end
    /// outside the range of the heap. The end is shared: it moves for every
    /// process of the fork lineage.
    pub fn commit_brk(&mut self, new_end: u64) -> (end: Option<u64>)
        requires
            old(self).wf(),
            old(self)@.alive(old(self)@.current),
        ensures
            final(self).wf(),
            old(self)@.precedes(final(self)@),
            end == (if end_in_range(HEAP_START, new_end) {
                Some(new_end)
            } else {
                None
            }),
            final(self)@ == (if end_in_range(HEAP_START, new_end) {
                KernelState {
                    heap_ends: old(self)@.heap_ends.update(
                        old(self)@.current_heap().cell as int,
                        new_end,
                    ),
                    ..old(self)@
                }
            } else {
                old(self)@
            }),
    {
        proof {
            assert(self@.holds(self.current));
            self.lemma_parts_wf();
        }
        if new_end < HEAP_START || new_end - HEAP_START > crate::heap::HEAP_SIZE {
            return None;
        }
        let heap = self.current().read().vm().heap;
        heap.commit(new_end, &mut self.heaps);
        proof {
            let before = old(self)@;
            assert(self@.procs =~= before.procs);
            assert forall|p: ProcessId| self@.procs.contains_key(p) implies #[trigger] self@.holds(
                p,
            ) by {
                assert(before.holds(p));
            }
        }
        Some(new_end)
    }

    /// The names of the programs that can be spawned, separated by `", "`.
    pub fn list_app(&self) -> (names: String)
        ensures
            names@ == self@.app_names(),
    {
        let mut names = String::new();
        let mut i: usize = 0;
        while i < self.app_list.len()
            invariant
                i <= self.app_list@.len(),
                self@.apps.len() == self.app_list@.len(),
                names@ == joined(self@.apps.take(i as int), ", "@),
            decreases self.app_list@.len() - i,
        {
            proof {
                assert(self@.apps.take(i + 1).drop_last() == self@.apps.take(i as int));
                assert(self@.apps.take(i + 1).last() == self.app_list@[i as int]@);
            }
            if i > 0 {
                names.append(", ");
            }
            names.append(self.app_list[i].as_str());
            i = i + 1;
        }
        proof {
            assert(self@.apps.take(i as int) == self@.apps);
        }
        names
    }

    /// Position of the program `name` in the list of programs that can be spawned.
    pub fn find_app(&self, name: &str) -> (found: Option<usize>)
        ensures
            match found {
                Some(at) => self@.first_app(name@, at as int),
                None => forall|i: int| 0 <= i < self@.apps.len() ==> self@.apps[i] != name@,
            },
    {
        let wanted = name.to_owned();
        let mut i: usize = 0;
        while i < self.app_list.len()
            invariant
                i <= self.app_list@.len(),
                wanted@ == name@,
                self@.apps.len() == self.app_list@.len(),
                forall|j: int| 0 <= j < i ==> self@.apps[j] != name@,
            decreases self.app_list@.len() - i,
        {
            assert(self@.apps[i as int] == self.app_list@[i as int]@);
            if self.app_list[i] == wanted {
                return Some(i);
            }
            i = i + 1;
        }
        None
    }

    /// The process list: one line for every live process, in the order of
    /// the identifiers.
    pub fn print_process_list(&self) -> (rows: Vec<ProcessRow>)
        requires
            self.wf(),
        ensures
            rows@.len() == self@.rows_below(self@.next_pid as int).len(),
            forall|i: int| 0 <= i < rows@.len() ==> (#[trigger] rows@[i])@ == self@.rows_below(
                self@.next_pid as int,
            )[i],
    {
        let bound = self.pids.peek();
        let mut rows: Vec<ProcessRow> = Vec::new();
        let mut raw: u16 = 0;
        proof {
            self.lemma_parts_wf();
        }
        while raw < bound
            invariant
                self.wf(),
                self.heaps.wf(),
                bound == self@.next_pid,
                raw <= bound,
                rows@.len() == self@.rows_below(raw as int).len(),
                forall|i: int| 0 <= i < rows@.len() ==> (#[trigger] rows@[i])@ == self@.rows_below(
                    raw as int,
                )[i],
            decreases bound - raw,
        {
            let pid = ProcessId(raw);
            let ghost before = rows@;
            match self.processes.get(&raw) {
                Some(process) => {
                    let inner = process.read();
                    if inner.status() != ProgramStatus::Dead {
                        proof {
                            assert(self@.holds(pid));
                        }
                        let row = ProcessRow {
                            pid,
                            parent: inner.parent(),
                            name: inner.name().to_owned(),
                            ticks_passed: inner.ticks_passed(),
                            memory_usage: inner.vm().memory_usage(&self.heaps),
                            status: inner.status(),
                        };
                        assert(row@ == self@.row_of(pid));
                        rows.push(row);
                    }
                },
                None => {},
            }
            raw = raw + 1;
            proof {
                let target = self@.rows_below(raw as int);
                assert(rows@.len() == target.len());
                assert forall|i: int| 0 <= i < rows@.len() implies (#[trigger] rows@[i])@
                    == target[i] by {
                    if i < before.len() {
                        assert(rows@[i] == before[i]);
                    }
                }
            }
        }
        rows
    }

    /// Why a fork of the current process, which has to be alive, would fail
    /// now, if it would.
    pub fn fork_error(&self) -> (error: Option<ForkError>)
        requires
            self.wf(),
            self@.alive(self@.current),
        ensures
            error == self@.fork_error(),
    {
        proof {
            assert(self@.holds(self.current));
        }
        let inner = self.current().read();
        let count = inner.children().len() as u64;
        if inner.vm().stack.fork(count).is_none() {
            Some(ForkError::NoStackWindow)
        } else if !self.pids.has_next() {
            Some(ForkError::NoPid)
        } else {
            None
        }
    }

}

/// Name of the kernel's own process.
pub const KERNEL_NAME: &'static str = "kernel";

/// Sets up process management at boot: the kernel's own process is made in
/// the page table `kernel_table`, with the kernel stack, data of its own and
/// the first identifier, and becomes the running and current process of a
/// new manager for the programs `app_list`.
pub fn init(kernel_table: PageTableContext, app_list: Vec<String>, selectors: Selectors) -> (manager:
    ProcessManager)
    ensures
        manager.wf(),
        manager@.current == ProcessId(KERNEL_PID),
        manager@.next_pid == KERNEL_PID + 1,
        manager@.procs.dom() == set![ProcessId(KERNEL_PID)],
        manager@.procs[ProcessId(KERNEL_PID)] == Process::created(
            KERNEL_NAME@,
            None,
            ProcessVm {
                page_table: kernel_table,
                stack: Stack::kernel(),
                heap: Heap { base: HEAP_START, cell: 0 },
                code_usage: 0,
            },
            DataHandle(0),
        ).restored(),
        manager@.queue == Seq::<ProcessId>::empty(),
        manager@.data == seq![DataState::fresh()],
        manager@.heap_ends == seq![HEAP_START],
        manager@.apps == Seq::new(app_list@.len(), |i: int| app_list@[i]@),
        manager@.selectors == selectors,
{
    let mut counter = PidCounter::new();
    let mut store = DataStore::new();
    let mut ends = HeapEnds::new();
    let vm = ProcessVm::new(kernel_table, &mut ends).init_kernel_vm();
    let name = KERNEL_NAME.to_owned();
    let kproc = Process::new(name, None, vm, None, &mut counter, &mut store);
    let manager = ProcessManager::new(kproc, app_list, counter, store, ends, selectors);
    proof {
        assert(manager@.procs.dom() =~= set![ProcessId(KERNEL_PID)]);
        assert(manager@.data =~= seq![DataState::fresh()]);
        assert(manager@.heap_ends =~= seq![HEAP_START]);
    }
    manager
}

/// Mathematical content of a line of the process list.
pub struct RowState {
    pub pid: ProcessId,
    pub parent: Option<ProcessId>,
    pub name: Seq<char>,
    pub ticks_passed: usize,
    pub memory_usage: u64,
    pub status: ProgramStatus,
}

/// A line of the process list.
#[derive(Debug)]
pub struct ProcessRow {
    /// Identifier of the process.
    pub pid: ProcessId,
    /// Identifier of the process that made it, if any.
    pub parent: Option<ProcessId>,
    /// Name of the process, in lower case.
    pub name: String,
    /// Times the process has been interrupted while running.
    pub ticks_passed: usize,
    /// Bytes of memory in use: code, stack and heap.
    pub memory_usage: u64,
    /// Status of the process; never `Dead`.
    pub status: ProgramStatus,
}

impl View for ProcessRow {
    type V = RowState;

    open spec fn view(&self) -> RowState {
        RowState {
            pid: self.pid,
            parent: self.parent,
            name: self.name@,
            ticks_passed: self.ticks_passed,
            memory_usage: self.memory_usage,
            status: self.status,
        }
    }
}

/// A successful switch: who runs now, and in which page table.
#[derive(Clone, Copy, Debug, PartialEq, Eq, Structural)]
pub struct Switched {
    /// The process that has been given the processor.
    pub pid: ProcessId,
    /// The page table that has to become the active one.
    pub page_table: PageTableContext,
}

/// Why the scheduler could not go on.
#[derive(Clone, Copy, Debug, PartialEq, Eq, Structural)]
pub enum SchedulerError {
    /// The ready queue holds no process that is ready to run.
    NoRunnableProcess,
}

/// Where the wait for the end of a process stands.
#[derive(Clone, Copy, Debug, PartialEq, Eq, Structural)]
pub enum WaitOutcome {
    /// The process is dead; this is its exit code.
    Exited(isize),
    /// The process is registered and not dead.
    StillAlive,
    /// No process was ever registered under the identifier.
    NotFound,
}

/// What became of a request to kill a process.
#[derive(Clone, Copy, Debug, PartialEq, Eq, Structural)]
pub enum KillOutcome {
    /// No process is registered under the identifier.
    NotFound,
    /// The process was dead already.
    AlreadyDead,
    /// The process has been killed; its memory has to be released.
    Killed(VmRelease),
}

} // verus!
