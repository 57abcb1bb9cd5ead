//! The services behind the system calls that suspend the caller.
//!
//! A process stops running at a timer interrupt, at a system call that
//! blocks, and when it exits. Each time the manager first records where the
//! process stood and then gives the processor to the next ready process.

use vstd::prelude::*;
use crate::context::ProcessContext;
use crate::data::DataState;
use crate::manager::{
    Forked, KernelState, KillOutcome, ProcessManager, SchedulerError, SpawnError, Spawned,
    Switched,
};
use crate::memory::PageTableContext;
use crate::pid::ProcessId;
use crate::process::{ForkError, ProgramStatus};
use crate::sync::SemaphoreResult;
use crate::vm::LoadedImage;

verus! {

/// The state after the `fork` system call of the current process with the
/// trap frame `context`: the process has been saved, forked into
/// `page_table`, and the next ready process has the processor.
pub open spec fn after_fork_call(
    state: KernelState,
    context: ProcessContext,
    page_table: PageTableContext,
) -> KernelState {
    forked_state(state, context, page_table).after_switch()
}

/// The state in which the `fork` system call makes its switch: the caller
/// has been saved with the trap frame `context` and forked into
/// `page_table`.
pub open spec fn forked_state(
    state: KernelState,
    context: ProcessContext,
    page_table: PageTableContext,
) -> KernelState {
    state.after_save(context).after_fork(page_table)
}

/// The state in which the `exit` system call makes its switch: the current
/// process has been killed with exit code `ret`, unless it was dead already.
pub open spec fn exited_state(state: KernelState, ret: isize) -> KernelState {
    if state.alive(state.current) {
        state.after_kill(state.current, ret)
    } else {
        state
    }
}

/// The state in which a `wait` system call that got no grant makes its
/// switch: the caller is queued on the semaphore `key` and blocked, and its
/// trap frame `context` is stored. The caller is not put on the ready queue.
pub open spec fn blocked_state(state: KernelState, key: u32, context: ProcessContext) -> KernelState {
    state.after_sem_wait(key).after_park(context)
}

/// The state after the `wait` system call of the current process on the
/// semaphore `key` with the trap frame `context`. Where the caller got no
/// grant, the next ready process has the processor.
pub open spec fn after_wait_call(state: KernelState, key: u32, context: ProcessContext) -> KernelState {
    if (state.sem_wait_result(key) is Block) {
        blocked_state(state, key, context).after_switch()
    } else {
        state.after_sem_wait(key)
    }
}

/// The timer interrupt and every other voluntary or forced yield: the
/// current process is saved with the trap frame `context` and the processor
/// goes to the next ready process, as [`ProcessManager::save_current`] and
/// [`ProcessManager::switch_next`] say.
pub fn switch(kernel: &mut ProcessManager, context: &mut ProcessContext) -> (next: Result<
    Switched,
    SchedulerError,
>)
    requires
        old(kernel).wf(),
    ensures
        final(kernel).wf(),
        old(kernel)@.precedes(final(kernel)@),
        final(kernel)@ == old(kernel)@.after_save(*old(context)).after_switch(),
        next == old(kernel)@.after_save(*old(context)).switch_outcome(),
        *final(context) == old(kernel)@.after_save(*old(context)).switch_frame(*old(context)),
        next.is_ok() == (old(kernel)@.after_save(*old(context)).stale_prefix() < old(
            kernel,
        )@.after_save(*old(context)).queue.len()),
        next matches Ok(switched) ==> {
            &&& switched.pid == final(kernel)@.current
            &&& final(kernel)@.procs[switched.pid].status == ProgramStatus::Running
            &&& switched.page_table == old(kernel)@.after_save(
                *old(context),
            ).procs[switched.pid].vm.unwrap().page_table
            &&& *final(context) == old(kernel)@.after_save(
                *old(context),
            ).procs[switched.pid].context
        },
        next.is_err() ==> *final(context) == *old(context),
{
    let ghost start = kernel@;
    kernel.save_current(context);
    let ghost saved = kernel@;
    let next = kernel.switch_next(context);
    proof {
        crate::laws::lemma_precedes_trans(start, saved, kernel@);
    }
    next
}

/// The `exit` system call: the current process is killed with exit code
/// `ret` and the processor goes to the next ready process, as
/// [`ProcessManager::kill_self`] and [`ProcessManager::switch_next`] say.
/// The dead process is not saved and never queued again.
pub fn exit(kernel: &mut ProcessManager, ret: isize, context: &mut ProcessContext) -> (done: (
    KillOutcome,
    Result<Switched, SchedulerError>,
))
    requires
        old(kernel).wf(),
    ensures
        final(kernel).wf(),
        old(kernel)@.precedes(final(kernel)@),
        final(kernel)@.procs[old(kernel)@.current].is_dead(),
        final(kernel)@ == exited_state(old(kernel)@, ret).after_switch(),
        done.1 == exited_state(old(kernel)@, ret).switch_outcome(),
        *final(context) == exited_state(old(kernel)@, ret).switch_frame(*old(context)),
        old(kernel)@.alive(old(kernel)@.current) ==> {
            &&& done.0 matches KillOutcome::Killed(release)
            &&& release.page_table == old(
                kernel,
            )@.procs[old(kernel)@.current].vm.unwrap().page_table
            &&& release.stack == old(kernel)@.procs[old(kernel)@.current].vm.unwrap().stack.span()
            &&& release.heap == old(kernel)@.released_heap(old(kernel)@.current)
            &&& final(kernel)@.procs[old(kernel)@.current].exit_code == Some(ret)
        },
        !old(kernel)@.alive(old(kernel)@.current) ==> (done.0 is AlreadyDead),
        done.1.is_ok() == (exited_state(old(kernel)@, ret).stale_prefix() < exited_state(
            old(kernel)@,
            ret,
        ).queue.len()),
        done.1 matches Ok(switched) ==> {
            &&& switched.pid == final(kernel)@.current
            &&& switched.pid != old(kernel)@.current
            &&& final(kernel)@.procs[switched.pid].status == ProgramStatus::Running
            &&& switched.page_table == exited_state(
                old(kernel)@,
                ret,
            ).procs[switched.pid].vm.unwrap().page_table
            &&& *final(context) == exited_state(old(kernel)@, ret).procs[switched.pid].context
        },
        done.1.is_err() ==> *final(context) == *old(context),
{
    let ghost start = kernel@;
    let ghost pid = start.current;
    let killed = kernel.kill_self(ret);
    let ghost dead = kernel@;
    proof {
        assert(dead.holds(pid));
        assert(dead.procs[pid].is_dead());
    }
    let next = kernel.switch_next(context);
    proof {
        crate::laws::lemma_precedes_trans(start, dead, kernel@);
    }
    (killed, next)
}

/// Spawns a process for a loaded image as a child of the current process,
/// with data of its own; see [`ProcessManager::spawn`].
pub fn elf_spawn(
    kernel: &mut ProcessManager,
    name: String,
    image: Option<LoadedImage>,
    page_table: PageTableContext,
) -> (spawned: Result<Spawned, SpawnError>)
    requires
        old(kernel).wf(),
    ensures
        final(kernel).wf(),
        old(kernel)@.precedes(final(kernel)@),
        match spawned {
            Ok(new) => {
                &&& old(kernel)@.spawn_error(image).is_none()
                &&& new.pid == ProcessId(old(kernel)@.next_pid)
                &&& new.page_table == page_table
                &&& new.stack == old(kernel)@.spawned_vm(image.unwrap(), page_table).stack.span()
                &&& new.stack.wf()
                &&& final(kernel)@ == old(kernel)@.after_spawn(
                    image.unwrap(),
                    name@,
                    Some(old(kernel)@.current),
                    DataState::fresh(),
                    page_table,
                )
            },
            Err(error) => {
                &&& old(kernel)@.spawn_error(image) == Some(error)
                &&& final(kernel)@ == old(kernel)@
            },
        },
{
    let parent = kernel.current_pid();
    kernel.spawn(image, name, Some(parent), None, page_table)
}

/// The `spawn` system call: starts the program `name` as a child of the
/// current process. `image` is what the loader has made of the program in
/// `page_table`.
///
/// The result is `None`, with nothing changed, when no program of that
/// name is listed or when [`elf_spawn`] fails.
pub fn spawn(
    kernel: &mut ProcessManager,
    name: &str,
    image: Option<LoadedImage>,
    page_table: PageTableContext,
) -> (spawned: Option<Spawned>)
    requires
        old(kernel).wf(),
    ensures
        final(kernel).wf(),
        old(kernel)@.precedes(final(kernel)@),
        spawned.is_some() == (old(kernel)@.lists_app(name@) && old(kernel)@.spawn_error(
            image,
        ).is_none()),
        match spawned {
            Some(new) => {
                &&& new.pid == ProcessId(old(kernel)@.next_pid)
                &&& new.pid.0 > 0
                &&& new.page_table == page_table
                &&& new.stack == old(kernel)@.spawned_vm(image.unwrap(), page_table).stack.span()
                &&& new.stack.wf()
                &&& final(kernel)@ == old(kernel)@.after_spawn(
                    image.unwrap(),
                    name@,
                    Some(old(kernel)@.current),
                    DataState::fresh(),
                    page_table,
                )
            },
            None => final(kernel)@ == old(kernel)@,
        },
{
    if kernel.find_app(name).is_none() {
        return None;
    }
    proof {
        let at = choose|at: int| old(kernel)@.first_app(name@, at);
        assert(old(kernel)@.apps[at] == name@);
        assert(old(kernel)@.holds(old(kernel)@.current));
    }
    match elf_spawn(kernel, name.to_owned(), image, page_table) {
        Ok(new) => Some(new),
        Err(_) => None,
    }
}

/// What the `spawn` system call hands back to its caller: the identifier of
/// the new process, or 0 if none was made. No process ever has the
/// identifier 0.
pub fn spawn_result(spawned: &Option<Spawned>) -> (raw: u16)
    ensures
        raw == match *spawned {
            Some(new) => new.pid.0,
            None => 0u16,
        },
{
    match spawned {
        Some(new) => new.pid.0,
        None => 0,
    }
}

/// The `fork` system call of the current process, which has to be alive.
///
/// If the fork cannot succeed, nothing changes and the reason is returned.
/// Otherwise the caller is saved with the trap frame `context` and queued,
/// the child is forked into `page_table` and queued behind it, and the
/// processor goes to the next ready process. The parent finds the child's
/// identifier as its result when it runs again, the child finds zero.
pub fn fork(kernel: &mut ProcessManager, context: &mut ProcessContext, page_table: PageTableContext) -> (forked:
    Result<(Forked, Result<Switched, SchedulerError>), ForkError>)
    requires
        old(kernel).wf(),
        old(kernel)@.alive(old(kernel)@.current),
    ensures
        final(kernel).wf(),
        old(kernel)@.precedes(final(kernel)@),
        match forked {
            Ok((new, next)) => {
                &&& old(kernel)@.fork_error().is_none()
                &&& final(kernel)@ == after_fork_call(old(kernel)@, *old(context), page_table)
                &&& new.child == crate::pid::ProcessId(old(kernel)@.next_pid)
                &&& new.page_table == page_table
                &&& new.parent_stack == old(
                    kernel,
                )@.procs[old(kernel)@.current].vm.unwrap().stack.span()
                &&& new.child_stack == final(kernel)@.procs[new.child].vm.unwrap().stack.span()
                &&& final(kernel)@.procs[new.child].context.regs.rax == 0
                &&& final(kernel)@.procs[old(kernel)@.current].context.regs.rax == new.child.0
                &&& new.child.0 > 0
                &&& next == forked_state(old(kernel)@, *old(context), page_table).switch_outcome()
                &&& *final(context) == forked_state(
                    old(kernel)@,
                    *old(context),
                    page_table,
                ).switch_frame(*old(context))
                &&& next.is_ok() == (forked_state(
                    old(kernel)@,
                    *old(context),
                    page_table,
                ).stale_prefix() < forked_state(
                    old(kernel)@,
                    *old(context),
                    page_table,
                ).queue.len())
                &&& next matches Ok(switched) ==> {
                    &&& switched.pid == final(kernel)@.current
                    &&& final(kernel)@.procs[switched.pid].status == ProgramStatus::Running
                    &&& switched.page_table == forked_state(
                        old(kernel)@,
                        *old(context),
                        page_table,
                    ).procs[switched.pid].vm.unwrap().page_table
                    &&& *final(context) == forked_state(
                        old(kernel)@,
                        *old(context),
                        page_table,
                    ).procs[switched.pid].context
                }
                &&& next.is_err() ==> *final(context) == *old(context)
            },
            Err(error) => {
                &&& old(kernel)@.fork_error() == Some(error)
                &&& final(kernel)@ == old(kernel)@
                &&& *final(context) == *old(context)
            },
        },
{
    match kernel.fork_error() {
        Some(error) => {
            return Err(error);
        },
        None => {},
    }
    let ghost start = kernel@;
    proof {
        assert(start.holds(start.current));
    }
    kernel.save_current(context);
    let ghost saved = kernel@;
    proof {
        assert(saved.procs[saved.current].vm == start.procs[start.current].vm);
        assert(saved.procs[saved.current].children == start.procs[start.current].children);
        assert(saved.fork_error() == start.fork_error());
    }
    let new = kernel.fork(page_table).unwrap();
    let ghost forked = kernel@;
    proof {
        assert(forked.holds(new.child));
        assert(forked.procs[new.child].context.regs.rax == 0);
        assert(forked.procs[start.current].context.regs.rax == new.child.0);
        assert(new.child != forked.current) by {
            assert(start.holds(start.current));
        }
    }
    let next = kernel.switch_next(context);
    proof {
        crate::laws::lemma_precedes_trans(start, saved, forked);
        crate::laws::lemma_precedes_trans(start, forked, kernel@);
        crate::laws::lemma_stale_prefix(forked);
        assert(kernel@.procs[new.child].vm == forked.procs[new.child].vm);
        assert(kernel@.procs[new.child].context == forked.procs[new.child].context);
        assert(kernel@.procs[start.current].context == forked.procs[start.current].context);
    }
    Ok((new, next))
}

/// The `wait` system call of the current process, which has to be alive, on
/// the semaphore under `key`.
///
/// With a free grant, or without such a semaphore, the caller keeps the
/// processor. Without a grant the caller is blocked and queued on the
/// semaphore, its trap frame `context` is stored, and the processor goes
/// to the next ready process; the result of that switch is returned too.
/// The blocked caller is not put on the ready queue: it runs again only
/// after a signal has woken it.
pub fn sem_wait(kernel: &mut ProcessManager, key: u32, context: &mut ProcessContext) -> (waited: (
    SemaphoreResult,
    Option<Result<Switched, SchedulerError>>,
))
    requires
        old(kernel).wf(),
        old(kernel)@.alive(old(kernel)@.current),
    ensures
        final(kernel).wf(),
        old(kernel)@.precedes(final(kernel)@),
        waited.0 == old(kernel)@.sem_wait_result(key),
        final(kernel)@ == after_wait_call(old(kernel)@, key, *old(context)),
        waited.1.is_some() == (waited.0 is Block),
        waited.1.is_none() ==> *final(context) == *old(context),
        waited.1 matches Some(next) ==> {
            &&& next == blocked_state(old(kernel)@, key, *old(context)).switch_outcome()
            &&& *final(context) == blocked_state(
                old(kernel)@,
                key,
                *old(context),
            ).switch_frame(*old(context))
            &&& next.is_ok() == (blocked_state(
                old(kernel)@,
                key,
                *old(context),
            ).stale_prefix() < blocked_state(old(kernel)@, key, *old(context)).queue.len())
            &&& next.is_err() ==> *final(context) == *old(context)
        },
        waited.1 matches Some(Ok(switched)) ==> {
            &&& switched.pid == final(kernel)@.current
            &&& switched.pid != old(kernel)@.current
            &&& final(kernel)@.procs[switched.pid].status == ProgramStatus::Running
            &&& switched.page_table == blocked_state(
                old(kernel)@,
                key,
                *old(context),
            ).procs[switched.pid].vm.unwrap().page_table
            &&& *final(context) == blocked_state(
                old(kernel)@,
                key,
                *old(context),
            ).procs[switched.pid].context
        },
{
    let ghost start = kernel@;
    let result = kernel.sem_wait(key);
    let ghost waited = kernel@;
    match result {
        SemaphoreResult::Block(_) => {
            proof {
                assert(waited.procs[waited.current].status == crate::process::ProgramStatus::Blocked);
            }
            kernel.park_current(context);
            let ghost saved = kernel@;
            let next = kernel.switch_next(context);
            proof {
                crate::laws::lemma_precedes_trans(start, waited, saved);
                crate::laws::lemma_precedes_trans(start, saved, kernel@);
                crate::laws::lemma_stale_prefix(saved);
            }
            (result, Some(next))
        },
        _ => (result, None),
    }
}

} // verus!
