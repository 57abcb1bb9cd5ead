//! A process and the state machine of its life.
//!
//! A process is `Ready`, `Running` or `Blocked` while it lives and `Dead`
//! from the moment it is killed. Death is final: no operation of this module
//! changes the status or the exit code of a dead process.

use vstd::prelude::*;
use crate::context::{ProcessContext, Selectors};
use crate::data::{initial_data, DataHandle, DataStore, ProcessData};
use crate::memory::{PageSpan, PageTableContext};
use crate::pid::{PidCounter, ProcessId};
use crate::stack::{STACK_DEF_SIZE, STACK_MAX_SIZE};
use crate::vm::{LoadedImage, ProcessVm, CODE_MAX};

verus! {

/// Where a process stands in its life.
#[derive(Debug, Copy, Clone, Eq, PartialEq, Structural)]
pub enum ProgramStatus {
    Running,
    Ready,
    Blocked,
    Dead,
}

/// Why a process could not be forked.
#[derive(Debug, Copy, Clone, Eq, PartialEq, Structural)]
pub enum ForkError {
    /// The address space has no stack window left for the child.
    NoStackWindow,
    /// All process identifiers have been handed out.
    NoPid,
}

/// Lower-case form of an ASCII letter; every other character stays.
pub open spec fn ascii_lower(c: char) -> char {
    if 'A' <= c <= 'Z' {
        ((c as u8) + 32) as char
    } else {
        c
    }
}

/// Lower-case copy of a string.
///
/// Calls `str::to_ascii_lowercase` of the standard library, which maps the
/// ASCII letters `A` to `Z` to `a` to `z` and keeps every other character.
#[verifier::external_body]
fn lowercase(text: &str) -> (lower: String)
    ensures
        lower@.len() == text@.len(),
        forall|i: int| 0 <= i < text@.len() ==> lower@[i] == ascii_lower(#[trigger] text@[i]),
{
    text.to_ascii_lowercase()
}

/// Mathematical state of a process.
pub struct ProcessState {
    pub name: Seq<char>,
    /// The process that made this one; looked up by identifier, never owned.
    pub parent: Option<ProcessId>,
    /// The processes forked from this one, oldest first.
    pub children: Seq<ProcessId>,
    /// Times the process has been interrupted while running.
    pub ticks_passed: usize,
    pub status: ProgramStatus,
    /// Where the process resumes.
    pub context: ProcessContext,
    /// Present exactly when the process is dead.
    pub exit_code: Option<isize>,
    /// Absent exactly when the process is dead.
    pub data: Option<DataHandle>,
    /// Absent exactly when the process is dead.
    pub vm: Option<ProcessVm>,
}

impl ProcessState {
    /// A dead process has an exit code and nothing else; a live one has an
    /// address space and data but no exit code.
    pub open spec fn wf(self) -> bool {
        &&& (self.status == ProgramStatus::Dead) == self.exit_code.is_some()
        &&& (self.status == ProgramStatus::Dead) == self.vm.is_none()
        &&& (self.status == ProgramStatus::Dead) == self.data.is_none()
        &&& self.vm matches Some(vm) ==> vm.stack.wf() && vm.code_usage <= CODE_MAX
    }

    pub open spec fn is_dead(self) -> bool {
        self.status == ProgramStatus::Dead
    }

    /// The state with status `status`, unless the process is dead.
    pub open spec fn with_status(self, status: ProgramStatus) -> Self {
        if self.is_dead() {
            self
        } else {
            ProcessState { status, ..self }
        }
    }

    /// The state after one more tick; the counter stops at `usize::MAX`.
    pub open spec fn ticked(self) -> Self {
        ProcessState {
            ticks_passed: if self.ticks_passed < usize::MAX {
                (self.ticks_passed + 1) as usize
            } else {
                self.ticks_passed
            },
            ..self
        }
    }

    /// The state after the context of the interrupted process has been
    /// stored: a running process becomes ready, any other keeps its status.
    pub open spec fn saved(self, context: ProcessContext) -> Self {
        ProcessState {
            context,
            status: if self.status == ProgramStatus::Running {
                ProgramStatus::Ready
            } else {
                self.status
            },
            ..self
        }
    }

    /// The state after the context of a process that gives up the
    /// processor has been stored and counted, with the status left alone.
    pub open spec fn parked(self, context: ProcessContext) -> Self {
        ProcessState { context, ..self.ticked() }
    }

    /// The state after the process has been put on the processor.
    pub open spec fn restored(self) -> Self {
        ProcessState { status: ProgramStatus::Running, ..self }
    }

    /// The state after the process has been killed with exit code `ret`. A
    /// dead process stays as it is.
    pub open spec fn killed(self, ret: isize) -> Self {
        if self.is_dead() {
            self
        } else {
            ProcessState {
                status: ProgramStatus::Dead,
                exit_code: Some(ret),
                data: None,
                vm: None,
                ..self
            }
        }
    }

    /// The state of a child forked from this process, with the address space `vm`.
    pub open spec fn child(self, parent: ProcessId, vm: ProcessVm) -> Self {
        ProcessState {
            name: self.name,
            parent: Some(parent),
            children: Seq::empty(),
            ticks_passed: 0,
            status: ProgramStatus::Ready,
            context: self.context.rebased(
                self.vm.unwrap().stack.low().wrapping_sub(vm.stack.low()),
            ).with_rax(0),
            exit_code: None,
            data: self.data,
            vm: Some(vm),
        }
    }

    /// The state of a process after it has forked the child `child`.
    pub open spec fn forked(self, child: ProcessId) -> Self {
        ProcessState {
            status: ProgramStatus::Ready,
            children: self.children.push(child),
            context: self.context.with_rax(child.0 as usize),
            ..self
        }
    }

    /// Whether a child can be forked: the stack has a window for it.
    pub open spec fn can_fork(self) -> bool {
        self.vm.unwrap().stack.can_lower((self.children.len() as u64) + 1)
    }
}

/// The changeable part of a process.
pub struct ProcessInner {
    name: String,
    parent: Option<ProcessId>,
    children: Vec<ProcessId>,
    ticks_passed: usize,
    status: ProgramStatus,
    context: ProcessContext,
    exit_code: Option<isize>,
    proc_data: Option<DataHandle>,
    proc_vm: Option<ProcessVm>,
}

impl View for ProcessInner {
    type V = ProcessState;

    closed spec fn view(&self) -> ProcessState {
        ProcessState {
            name: self.name@,
            parent: self.parent,
            children: self.children@,
            ticks_passed: self.ticks_passed,
            status: self.status,
            context: self.context,
            exit_code: self.exit_code,
            data: self.proc_data,
            vm: self.proc_vm,
        }
    }
}

impl ProcessInner {
    pub fn name(&self) -> (name: &str)
        ensures
            name@ == self@.name,
    {
        self.name.as_str()
    }

    /// Counts one more interruption; the counter stops at `usize::MAX`.
    pub fn tick(&mut self)
        ensures
            final(self)@ == old(self)@.ticked(),
    {
        if self.ticks_passed < usize::MAX {
            self.ticks_passed = self.ticks_passed + 1;
        }
    }

    pub fn ticks_passed(&self) -> (ticks: usize)
        ensures
            ticks == self@.ticks_passed,
    {
        self.ticks_passed
    }

    pub fn status(&self) -> (status: ProgramStatus)
        ensures
            status == self@.status,
    {
        self.status
    }

    /// Makes a live process ready.
    pub fn pause(&mut self)
        ensures
            final(self)@ == old(self)@.with_status(ProgramStatus::Ready),
    {
        if self.status != ProgramStatus::Dead {
            self.status = ProgramStatus::Ready;
        }
    }

    /// Makes a live process running.
    pub fn resume(&mut self)
        ensures
            final(self)@ == old(self)@.with_status(ProgramStatus::Running),
    {
        if self.status != ProgramStatus::Dead {
            self.status = ProgramStatus::Running;
        }
    }

    /// Makes a live process blocked.
    pub fn block(&mut self)
        ensures
            final(self)@ == old(self)@.with_status(ProgramStatus::Blocked),
    {
        if self.status != ProgramStatus::Dead {
            self.status = ProgramStatus::Blocked;
        }
    }

    pub fn is_ready(&self) -> (ready: bool)
        ensures
            ready == (self@.status == ProgramStatus::Ready),
    {
        self.status == ProgramStatus::Ready
    }

    pub fn exit_code(&self) -> (code: Option<isize>)
        ensures
            code == self@.exit_code,
    {
        self.exit_code
    }

    pub fn parent(&self) -> (parent: Option<ProcessId>)
        ensures
            parent == self@.parent,
    {
        self.parent
    }

    pub fn children(&self) -> (children: &Vec<ProcessId>)
        ensures
            children@ == self@.children,
    {
        &self.children
    }

    /// Handle of the data group, unless the process is dead.
    pub fn data(&self) -> (data: Option<DataHandle>)
        ensures
            data == self@.data,
    {
        self.proc_data
    }

    /// The stored context.
    pub fn context(&self) -> (context: &ProcessContext)
        ensures
            *context == self@.context,
    {
        &self.context
    }

    /// The address space of a live process.
    pub fn vm(&self) -> (vm: &ProcessVm)
        requires
            self@.vm.is_some(),
        ensures
            *vm == self@.vm.unwrap(),
    {
        self.proc_vm.as_ref().unwrap()
    }

    /// The address space of a live process, to be changed in place.
    pub fn vm_mut(&mut self) -> (vm: &mut ProcessVm)
        requires
            old(self)@.vm.is_some(),
        ensures
            *vm == old(self)@.vm.unwrap(),
            final(self)@ == (ProcessState { vm: Some(*final(vm)), ..old(self)@ }),
    {
        self.proc_vm.as_mut().unwrap()
    }

    /// Decides a page fault at `addr` in the address space of a live
    /// process; see [`ProcessVm::handle_page_fault`].
    pub fn handle_page_fault(&mut self, addr: u64) -> (grown: Option<PageSpan>)
        requires
            old(self)@.wf(),
            !old(self)@.is_dead(),
        ensures
            final(self)@.wf(),
            grown.is_some() == old(self)@.vm.unwrap().stack.grows_at(addr),
            grown matches Some(span) ==> {
                &&& final(self)@ == (ProcessState {
                    vm: Some(
                        ProcessVm {
                            stack: old(self)@.vm.unwrap().stack.grown_to(addr),
                            ..old(self)@.vm.unwrap()
                        },
                    ),
                    ..old(self)@
                })
                &&& span.wf()
                &&& span.start == crate::memory::page_floor(addr)
                &&& span.end() == old(self)@.vm.unwrap().stack.low()
                &&& span.covers(addr)
            },
            grown.is_none() ==> final(self)@ == old(self)@,
    {
        let vm = self.vm_mut();
        vm.handle_page_fault(addr)
    }

    /// Sets the value that the process finds as the result of its system call.
    pub fn set_return_value(&mut self, ret: isize)
        ensures
            final(self)@ == (ProcessState {
                context: old(self)@.context.with_rax(ret as usize),
                ..old(self)@
            }),
    {
        self.context.set_rax(
            #[verifier::truncate]
            (ret as usize),
        );
    }

    /// The page table of a live process.
    pub fn page_table(&self) -> (table: PageTableContext)
        requires
            self@.vm.is_some(),
        ensures
            table == self@.vm.unwrap().page_table,
    {
        self.vm().page_table
    }

    /// Records a loaded image and sets up the initial stack of a live process
    /// with identifier `pid`; see [`ProcessVm::load_elf`].
    pub fn load_elf(&mut self, image: &LoadedImage, pid: ProcessId) -> (stack: Option<PageSpan>)
        requires
            old(self)@.wf(),
            !old(self)@.is_dead(),
        ensures
            final(self)@.wf(),
            stack.is_some() == (crate::stack::pid_slot(pid).is_some() && image.code_bytes
                <= CODE_MAX),
            stack.is_none() ==> final(self)@ == old(self)@,
            stack matches Some(span) ==> {
                &&& final(self)@ == (ProcessState { vm: final(self)@.vm, ..old(self)@ })
                &&& final(self)@.vm.unwrap().page_table == old(self)@.vm.unwrap().page_table
                &&& final(self)@.vm.unwrap().heap == old(self)@.vm.unwrap().heap
                &&& final(self)@.vm.unwrap().code_usage == image.code_bytes
                &&& final(self)@.vm.unwrap().stack.window_low() == crate::stack::Stack::vacant(
                    crate::stack::pid_slot(pid).unwrap(),
                ).window_low()
                &&& final(self)@.vm.unwrap().stack.usage() == STACK_DEF_SIZE
                &&& span == final(self)@.vm.unwrap().stack.span()
                &&& span.wf()
            },
    {
        let vm = self.vm_mut();
        vm.load_elf(image, pid)
    }

    /// Stores the context of the interrupted process. A running process
    /// becomes ready; a blocked or dead one stays what it is.
    pub fn save(&mut self, context: &ProcessContext)
        ensures
            final(self)@ == old(self)@.saved(*context),
    {
        self.context.save(context);
        if self.status == ProgramStatus::Running {
            self.status = ProgramStatus::Ready;
        }
    }

    /// Counts one more interruption and stores the context of a process
    /// that gives up the processor without becoming ready, as a blocked one
    /// does. The status stays as it is.
    pub fn park(&mut self, context: &ProcessContext)
        ensures
            final(self)@ == old(self)@.parked(*context),
    {
        self.tick();
        self.context.save(context);
    }

    /// Puts a live process on the processor: its context goes into the trap
    /// frame `context`, it becomes running, and the page table that has to be
    /// made the active one is returned.
    pub fn restore(&mut self, context: &mut ProcessContext) -> (table: PageTableContext)
        requires
            old(self)@.wf(),
            !old(self)@.is_dead(),
        ensures
            final(self)@ == old(self)@.restored(),
            final(self)@.wf(),
            *final(context) == old(self)@.context,
            table == old(self)@.vm.unwrap().page_table,
    {
        self.context.restore(context);
        self.status = ProgramStatus::Running;
        self.vm().page_table
    }

    /// Prepares the first entry of the process; see
    /// [`ProcessContext::init_stack_frame`].
    pub fn init_stack_frame(&mut self, entry: u64, stack_top: u64, selectors: Selectors)
        ensures
            final(self)@ == (ProcessState {
                context: old(self)@.context.started(entry, stack_top, selectors),
                ..old(self)@
            }),
    {
        self.context.init_stack_frame(entry, stack_top, selectors)
    }

    /// Kills a live process: address space and data handle are given up, the
    /// exit code is recorded and the status becomes `Dead`. The address space
    /// is returned so that it can be released. A dead process stays as it is.
    pub fn kill(&mut self, ret: isize) -> (vm: Option<ProcessVm>)
        requires
            old(self)@.wf(),
        ensures
            final(self)@ == old(self)@.killed(ret),
            final(self)@.wf(),
            vm == old(self)@.vm,
    {
        if self.status == ProgramStatus::Dead {
            return None;
        }
        let vm = self.proc_vm.take();
        self.proc_data.take();
        self.exit_code = Some(ret);
        self.status = ProgramStatus::Dead;
        vm
    }

    /// The child that a fork of this live process makes, for the parent
    /// identifier `parent` and the forked page table `page_table`.
    ///
    /// The child has the parent's name and data handle, a copy of its stack
    /// further down, its context with the stack pointer moved along and zero
    /// as return value, and is ready. `None` when the stack has no window for
    /// the child.
    pub fn fork(&self, parent: ProcessId, page_table: PageTableContext) -> (child: Option<
        ProcessInner,
    >)
        requires
            self@.wf(),
            !self@.is_dead(),
        ensures
            child.is_some() == self@.can_fork(),
            child matches Some(inner) ==> inner@ == self@.child(
                parent,
                self@.vm.unwrap().forked(self@.children.len() as u64, page_table),
            ) && inner@.wf(),
    {
        let count = self.children.len() as u64;
        let new_vm = match self.vm().fork(count, page_table) {
            Some(vm) => vm,
            None => {
                return None;
            },
        };
        let offset = new_vm.stack.stack_offset(&self.vm().stack);
        let mut new_context = self.context;
        new_context.set_stack_offset(offset);
        new_context.set_rax(0);
        Some(
            ProcessInner {
                name: self.name.clone(),
                parent: Some(parent),
                children: Vec::new(),
                ticks_passed: 0,
                status: ProgramStatus::Ready,
                context: new_context,
                exit_code: None,
                proc_data: self.proc_data,
                proc_vm: Some(new_vm),
            },
        )
    }
}

/// A process: its identifier and its state.
pub struct Process {
    pid: ProcessId,
    inner: ProcessInner,
}

impl View for Process {
    type V = ProcessState;

    closed spec fn view(&self) -> ProcessState {
        self.inner@
    }
}

impl Process {
    /// The identifier of the process.
    pub closed spec fn id(&self) -> ProcessId {
        self.pid
    }

    /// The identifier of the process.
    pub fn pid(&self) -> (pid: ProcessId)
        ensures
            pid == self.id(),
    {
        self.pid
    }

    /// The state of the process, to be looked at.
    pub fn read(&self) -> (inner: &ProcessInner)
        ensures
            inner@ == self@,
    {
        &self.inner
    }

    /// The state of the process, to be changed in place.
    pub fn write(&mut self) -> (inner: &mut ProcessInner)
        ensures
            inner@ == old(self)@,
            final(self)@ == final(inner)@,
            final(self).id() == old(self).id(),
    {
        &mut self.inner
    }

    /// The state of a process right after [`Process::new`].
    pub open spec fn created(
        name: Seq<char>,
        parent: Option<ProcessId>,
        vm: ProcessVm,
        data: DataHandle,
    ) -> ProcessState {
        ProcessState {
            name: name.map_values(|c: char| ascii_lower(c)),
            parent,
            children: Seq::empty(),
            ticks_passed: 0,
            status: ProgramStatus::Ready,
            context: ProcessContext::idle(),
            exit_code: None,
            data: Some(data),
            vm: Some(vm),
        }
    }

    /// Makes a process with a fresh identifier.
    ///
    /// The name is stored in lower case. The process is ready, has never
    /// run, and has the address space `proc_vm`. Its data is `proc_data`, or
    /// the data of a new group if there is none; either way the data is
    /// added to `store`.
    pub fn new(
        name: String,
        parent: Option<ProcessId>,
        proc_vm: ProcessVm,
        proc_data: Option<ProcessData>,
        counter: &mut PidCounter,
        store: &mut DataStore,
    ) -> (process: Self)
        requires
            old(counter).available(),
            old(store).wf(),
            proc_vm.stack.wf(),
            proc_vm.code_usage <= CODE_MAX,
            proc_data matches Some(data) ==> data.wf(),
        ensures
            process.id() == ProcessId(old(counter).next()),
            final(counter).next() == old(counter).next() + 1,
            final(store).wf(),
            final(store)@ == old(store)@.push(initial_data(proc_data)),
            process@ == Self::created(
                name@,
                parent,
                proc_vm,
                DataHandle(old(store)@.len() as usize),
            ),
            process@.wf(),
    {
        let lower = lowercase(name.as_str());
        let pid = ProcessId::new(counter);
        let data = match proc_data {
            Some(data) => data,
            None => ProcessData::new(),
        };
        let handle = store.add(data);
        let inner = ProcessInner {
            name: lower,
            parent,
            children: Vec::new(),
            ticks_passed: 0,
            status: ProgramStatus::Ready,
            context: ProcessContext::default(),
            exit_code: None,
            proc_data: Some(handle),
            proc_vm: Some(proc_vm),
        };
        proof {
            assert(inner@.name == name@.map_values(|c: char| ascii_lower(c)));
        }
        Process { pid, inner }
    }

    /// Kills the process; see [`ProcessInner::kill`].
    pub fn kill(&mut self, ret: isize) -> (vm: Option<ProcessVm>)
        requires
            old(self)@.wf(),
        ensures
            final(self)@ == old(self)@.killed(ret),
            final(self)@.wf(),
            final(self).id() == old(self).id(),
            vm == old(self)@.vm,
    {
        self.inner.kill(ret)
    }

    /// Forks a live process.
    ///
    /// On success the child has a fresh identifier and the state that
    /// [`ProcessInner::fork`] describes; the parent becomes ready, lists the
    /// child as its youngest and finds the child's identifier as return
    /// value. On failure neither the process nor the counter changes.
    pub fn fork(&mut self, page_table: PageTableContext, counter: &mut PidCounter) -> (child:
        Result<Process, ForkError>)
        requires
            old(self)@.wf(),
            !old(self)@.is_dead(),
        ensures
            final(self).id() == old(self).id(),
            final(self)@.wf(),
            match child {
                Ok(process) => {
                    &&& old(self)@.can_fork()
                    &&& old(counter).available()
                    &&& process.id() == ProcessId(old(counter).next())
                    &&& final(counter).next() == old(counter).next() + 1
                    &&& process@ == old(self)@.child(
                        old(self).id(),
                        old(self)@.vm.unwrap().forked(
                            old(self)@.children.len() as u64,
                            page_table,
                        ),
                    )
                    &&& process@.wf()
                    &&& final(self)@ == old(self)@.forked(process.id())
                },
                Err(error) => {
                    &&& final(self)@ == old(self)@
                    &&& final(counter).next() == old(counter).next()
                    &&& error == (if !old(self)@.can_fork() {
                        ForkError::NoStackWindow
                    } else {
                        ForkError::NoPid
                    })
                    &&& !old(self)@.can_fork() || !old(counter).available()
                },
            },
    {
        let child_inner = match self.inner.fork(self.pid, page_table) {
            Some(inner) => inner,
            None => {
                return Err(ForkError::NoStackWindow);
            },
        };
        if !counter.has_next() {
            return Err(ForkError::NoPid);
        }
        let child_pid = ProcessId::new(counter);
        self.inner.pause();
        self.inner.children.push(child_pid);
        self.inner.context.set_rax(child_pid.0 as usize);
        Ok(Process { pid: child_pid, inner: child_inner })
    }
}

} // verus!
