use ysos_kernel::context::{ProcessContext, Selectors};
use ysos_kernel::data::{DataStore, ProcessData};
use ysos_kernel::heap::{BrkOutcome, HeapEnds, HEAP_START};
use ysos_kernel::input::{push_key, InputBuffer};
use ysos_kernel::manager::{
    init, KillOutcome, ProcessManager, SchedulerError, SpawnError, WaitOutcome, KERNEL_PID,
};
use ysos_kernel::memory::{MemoryAction, PageSpan, PageTableContext};
use ysos_kernel::pid::{PidCounter, ProcessId};
use ysos_kernel::process::{ForkError, Process, ProgramStatus};
use ysos_kernel::resource::{Resource, StdIO};
use ysos_kernel::service::{elf_spawn, exit, switch};
use ysos_kernel::stack::{Stack, STACK_DEF_SIZE};
use ysos_kernel::sync::SemaphoreResult;
use ysos_kernel::vm::{LoadedImage, ProcessVm, CODE_MAX};

const USER: Selectors = Selectors { code: 0x1b, data: 0x23 };
const IMAGE: LoadedImage = LoadedImage { entry: 0x1111_0000, code_bytes: 0x5000 };

fn boot() -> ProcessManager {
    let apps = vec![String::from("hello"), String::from("sh"), String::from("fact")];
    init(PageTableContext::new(0x1000), apps, USER)
}

fn spawn(manager: &mut ProcessManager, name: &str) -> ProcessId {
    let table = PageTableContext::new(0x10_0000 + 0x1000 * manager.ready_queue().len() as u64);
    elf_spawn(manager, String::from(name), Some(IMAGE), table).unwrap().pid
}

fn status(manager: &ProcessManager, pid: ProcessId) -> ProgramStatus {
    manager.get_proc(pid).unwrap().read().status()
}

fn running(manager: &ProcessManager) -> Vec<ProcessId> {
    (0..50u16)
        .map(ProcessId)
        .filter(|pid| manager.get_proc(*pid).is_some())
        .filter(|pid| status(manager, *pid) == ProgramStatus::Running)
        .collect()
}

fn timer(manager: &mut ProcessManager) -> ProcessId {
    let mut context = *manager.current().read().context();
    switch(manager, &mut context).unwrap().pid
}

#[test]
fn boot_leaves_the_kernel_running() {
    let manager = boot();
    assert_eq!(KERNEL_PID, 1);
    assert_eq!(manager.current_pid(), ProcessId(1));
    assert_eq!(manager.get_page_fault_generator(), ProcessId(1));
    assert!(manager.ready_queue().is_empty());
    let kernel = manager.current();
    assert_eq!(kernel.pid(), ProcessId(1));
    assert_eq!(kernel.read().name(), "kernel");
    assert_eq!(kernel.read().status(), ProgramStatus::Running);
    assert_eq!(kernel.read().parent(), None);
    assert_eq!(kernel.read().vm().stack, Stack::kstack());
    assert_eq!(kernel.read().vm().page_table, PageTableContext::new(0x1000));
    assert!(manager.still_alive(ProcessId(1)));
    assert!(manager.get_proc(ProcessId(2)).is_none());
    assert!(manager.get_proc(ProcessId(0)).is_none());
}

#[test]
fn spawn_registers_a_ready_process() {
    let mut manager = boot();
    let table = PageTableContext::new(0x20_0000);
    let spawned = manager
        .spawn(Some(IMAGE), String::from("Hello"), Some(ProcessId(1)), None, table)
        .unwrap();
    assert_eq!(spawned.pid, ProcessId(2));
    assert_eq!(spawned.page_table, table);
    assert_eq!(spawned.stack, PageSpan { start: 0x3fff_ffff_f000, count: 1 });
    assert_eq!(manager.ready_queue(), vec![ProcessId(2)]);
    assert_eq!(manager.current_pid(), ProcessId(1));
    let process = manager.get_proc(ProcessId(2)).unwrap();
    assert_eq!(process.pid(), ProcessId(2));
    let inner = process.read();
    assert_eq!(inner.name(), "hello");
    assert_eq!(inner.parent(), Some(ProcessId(1)));
    assert_eq!(inner.status(), ProgramStatus::Ready);
    assert_eq!(inner.exit_code(), None);
    assert_eq!(inner.vm().page_table, table);
    assert_eq!(inner.vm().code_usage, 0x5000);
    assert_eq!(inner.vm().stack.memory_usage(), STACK_DEF_SIZE);
    assert_eq!(inner.context().stack_frame.instruction_pointer, 0x1111_0000);
    assert_eq!(inner.context().stack_frame.stack_pointer, 0x3fff_ffff_fff8);
    assert_eq!(inner.context().stack_frame.cpu_flags, 0x3200);
    assert_eq!(inner.context().stack_frame.code_segment, 0x1b);
    assert_eq!(inner.context().stack_frame.stack_segment, 0x23);
    assert!(manager.still_alive(ProcessId(2)));
}

#[test]
fn spawned_processes_get_windows_of_their_own() {
    let mut manager = boot();
    let second = elf_spawn(&mut manager, String::from("a"), Some(IMAGE), PageTableContext::new(1)).unwrap();
    let third = elf_spawn(&mut manager, String::from("b"), Some(IMAGE), PageTableContext::new(2)).unwrap();
    assert_eq!(second.pid, ProcessId(2));
    assert_eq!(third.pid, ProcessId(3));
    assert_eq!(second.stack.start, 0x3fff_ffff_f000);
    assert_eq!(third.stack.start, 0x3ffe_ffff_f000);
    assert_eq!(manager.ready_queue(), vec![ProcessId(2), ProcessId(3)]);
    assert_eq!(manager.get_proc(ProcessId(3)).unwrap().read().parent(), Some(ProcessId(1)));
}

#[test]
fn spawn_fails_when_the_image_did_not_load() {
    let mut manager = boot();
    let table = PageTableContext::new(0x20_0000);
    assert_eq!(
        manager.spawn(None, String::from("x"), None, None, table).err(),
        Some(SpawnError::ImageLoad)
    );
    assert_eq!(
        elf_spawn(&mut manager, String::from("x"), None, table).err(),
        Some(SpawnError::ImageLoad)
    );
    let huge = LoadedImage { entry: 0, code_bytes: CODE_MAX + 1 };
    assert_eq!(
        manager.spawn(Some(huge), String::from("x"), None, None, table).err(),
        Some(SpawnError::ImageTooLarge)
    );
    assert!(manager.ready_queue().is_empty());
    assert!(manager.get_proc(ProcessId(2)).is_none());
    assert_eq!(spawn(&mut manager, "y"), ProcessId(2));
}

#[test]
fn spawn_fails_when_the_windows_are_used_up() {
    let mut manager = boot();
    let table = PageTableContext::new(0x20_0000);
    for raw in 2..=0x2000u16 {
        let spawned = manager.spawn(Some(IMAGE), String::from("p"), None, None, table).unwrap();
        assert_eq!(spawned.pid, ProcessId(raw));
    }
    assert_eq!(
        manager.spawn(Some(IMAGE), String::from("p"), None, None, table).err(),
        Some(SpawnError::NoStackWindow)
    );
    assert_eq!(manager.ready_queue().len(), 0x1fff);
    assert!(manager.get_proc(ProcessId(0x2001)).is_none());
}

#[test]
fn save_current_requeues_the_running_process() {
    let mut manager = boot();
    let mut trap = ProcessContext::default();
    trap.regs.rcx = 11;
    manager.save_current(&trap);
    assert_eq!(manager.ready_queue(), vec![ProcessId(1)]);
    let kernel = manager.current().read();
    assert_eq!(kernel.status(), ProgramStatus::Ready);
    assert_eq!(kernel.ticks_passed(), 1);
    assert_eq!(kernel.context().regs.rcx, 11);
}

#[test]
fn save_current_does_not_requeue_the_dead() {
    let mut manager = boot();
    let pid = spawn(&mut manager, "a");
    assert_eq!(timer(&mut manager), pid);
    assert!(matches!(manager.kill_self(5), KillOutcome::Killed(_)));
    let queue = manager.ready_queue();
    manager.save_current(&ProcessContext::default());
    assert_eq!(manager.ready_queue(), queue);
    assert_eq!(status(&manager, pid), ProgramStatus::Dead);
    assert_eq!(manager.get_exit_code(pid), Some(5));
}

#[test]
fn save_current_requeues_the_blocked_as_a_stale_entry() {
    let mut manager = boot();
    let a = spawn(&mut manager, "a");
    manager.block(ProcessId(1));
    let mut trap = ProcessContext::default();
    trap.regs.r9 = 9;
    manager.save_current(&trap);
    assert_eq!(manager.ready_queue(), vec![a, ProcessId(1)]);
    assert_eq!(status(&manager, ProcessId(1)), ProgramStatus::Blocked);
    assert_eq!(manager.current().read().ticks_passed(), 1);
    assert_eq!(manager.current().read().context().regs.r9, 9);
    assert_eq!(manager.switch_next(&mut trap).unwrap().pid, a);
    manager.save_current(&trap);
    assert_eq!(manager.ready_queue(), vec![ProcessId(1), a]);
    assert_eq!(manager.switch_next(&mut trap).unwrap().pid, a);
    assert!(manager.ready_queue().is_empty());
    assert_eq!(status(&manager, ProcessId(1)), ProgramStatus::Blocked);
}

#[test]
fn park_current_stores_the_context_without_queueing() {
    let mut manager = boot();
    let mut trap = ProcessContext::default();
    trap.regs.r8 = 8;
    manager.block(ProcessId(1));
    manager.park_current(&trap);
    assert!(manager.ready_queue().is_empty());
    let kernel = manager.current().read();
    assert_eq!(kernel.status(), ProgramStatus::Blocked);
    assert_eq!(kernel.ticks_passed(), 1);
    assert_eq!(kernel.context().regs.r8, 8);
    trap.regs.r8 = 88;
    manager.wake_up(ProcessId(1));
    manager.park_current(&trap);
    assert_eq!(manager.ready_queue(), vec![ProcessId(1)]);
    assert_eq!(status(&manager, ProcessId(1)), ProgramStatus::Ready);
    assert_eq!(manager.current().read().ticks_passed(), 2);
    assert_eq!(manager.current().read().context().regs.r8, 88);
}

#[test]
fn switch_next_restores_the_next_process() {
    let mut manager = boot();
    let pid = spawn(&mut manager, "a");
    let table = manager.get_proc(pid).unwrap().read().page_table();
    let mut trap = ProcessContext::default();
    manager.save_current(&trap);
    let switched = manager.switch_next(&mut trap).unwrap();
    assert_eq!(switched.pid, pid);
    assert_eq!(switched.page_table, table);
    assert_eq!(manager.current_pid(), pid);
    assert_eq!(status(&manager, pid), ProgramStatus::Running);
    assert_eq!(status(&manager, ProcessId(1)), ProgramStatus::Ready);
    assert_eq!(trap.stack_frame.instruction_pointer, 0x1111_0000);
    assert_eq!(trap.stack_frame.stack_pointer, 0x3fff_ffff_fff8);
    assert_eq!(manager.ready_queue(), vec![ProcessId(1)]);
}

#[test]
fn ready_queue_is_first_in_first_out() {
    let mut manager = boot();
    let a = spawn(&mut manager, "a");
    let b = spawn(&mut manager, "b");
    let c = spawn(&mut manager, "c");
    let order: Vec<ProcessId> = (0..9).map(|_| timer(&mut manager)).collect();
    let kernel = ProcessId(1);
    assert_eq!(order, vec![a, b, c, kernel, a, b, c, kernel, a]);
    assert_eq!(manager.ready_queue(), vec![b, c, kernel]);
}

#[test]
fn switch_next_drops_stale_entries() {
    let mut manager = boot();
    let a = spawn(&mut manager, "a");
    let b = spawn(&mut manager, "b");
    let c = spawn(&mut manager, "c");
    manager.push_ready(ProcessId(99));
    manager.kill(a, 0);
    manager.block(b);
    manager.push_ready(c);
    assert_eq!(manager.ready_queue(), vec![a, b, c, ProcessId(99), c]);
    let mut trap = ProcessContext::default();
    assert_eq!(manager.switch_next(&mut trap).unwrap().pid, c);
    assert_eq!(manager.ready_queue(), vec![ProcessId(99), c]);
    assert_eq!(status(&manager, a), ProgramStatus::Dead);
    assert_eq!(status(&manager, b), ProgramStatus::Blocked);
    assert_eq!(running(&manager), vec![c]);
}

#[test]
fn switch_next_reports_an_exhausted_queue() {
    let mut manager = boot();
    let a = spawn(&mut manager, "a");
    manager.kill(a, 0);
    manager.push_ready(ProcessId(1));
    let mut trap = ProcessContext::default();
    trap.regs.rax = 123;
    let before = trap;
    assert_eq!(manager.switch_next(&mut trap).err(), Some(SchedulerError::NoRunnableProcess));
    assert_eq!(trap, before);
    assert!(manager.ready_queue().is_empty());
    assert_eq!(manager.current_pid(), ProcessId(1));
    assert_eq!(status(&manager, ProcessId(1)), ProgramStatus::Running);
    assert_eq!(manager.switch_next(&mut trap).err(), Some(SchedulerError::NoRunnableProcess));
}

#[test]
fn at_most_one_process_runs() {
    let mut manager = boot();
    let a = spawn(&mut manager, "a");
    spawn(&mut manager, "b");
    assert_eq!(running(&manager), vec![ProcessId(1)]);
    let mut trap = ProcessContext::default();
    assert_eq!(manager.switch_next(&mut trap).unwrap().pid, a);
    assert_eq!(running(&manager), vec![a]);
    assert_eq!(status(&manager, ProcessId(1)), ProgramStatus::Ready);
    for _ in 0..7 {
        let next = timer(&mut manager);
        assert_eq!(running(&manager), vec![next]);
    }
    let mut child_table = 0x50_0000;
    for _ in 0..3 {
        manager.fork(PageTableContext::new(child_table)).unwrap();
        assert!(running(&manager).is_empty());
        let next = timer(&mut manager);
        assert_eq!(running(&manager), vec![next]);
        child_table += 0x1000;
    }
}

#[test]
fn kill_reports_what_it_did() {
    let mut manager = boot();
    let a = spawn(&mut manager, "a");
    assert_eq!(manager.kill(ProcessId(40), 1), KillOutcome::NotFound);
    assert_eq!(manager.get_exit_code(a), None);
    assert_eq!(manager.wait_pid(a), -1);
    let table = manager.get_proc(a).unwrap().read().page_table();
    match manager.kill(a, 42) {
        KillOutcome::Killed(release) => {
            assert_eq!(release.page_table, table);
            assert_eq!(release.stack, PageSpan { start: 0x3fff_ffff_f000, count: 1 });
            assert_eq!(release.heap, None);
        }
        other => panic!("unexpected outcome {:?}", other),
    }
    assert!(!manager.still_alive(a));
    assert_eq!(manager.get_exit_code(a), Some(42));
    assert_eq!(manager.wait_pid(a), 42);
    assert_eq!(manager.kill(a, 43), KillOutcome::AlreadyDead);
    assert_eq!(manager.get_exit_code(a), Some(42));
    assert_eq!(manager.get_exit_code(ProcessId(40)), None);
    assert_eq!(manager.wait_pid(ProcessId(40)), -1);
    assert!(!manager.still_alive(ProcessId(40)));
}

#[test]
fn dead_processes_stay_dead() {
    let mut manager = boot();
    let a = spawn(&mut manager, "a");
    let b = spawn(&mut manager, "b");
    manager.kill(a, -7);
    manager.wake_up(a);
    manager.block(a);
    manager.push_ready(a);
    manager.push_ready(a);
    for _ in 0..6 {
        let next = timer(&mut manager);
        assert_ne!(next, a);
        assert_eq!(status(&manager, a), ProgramStatus::Dead);
        assert_eq!(manager.get_exit_code(a), Some(-7));
    }
    manager.kill(a, 1);
    manager.kill(b, 2);
    assert_eq!(manager.get_exit_code(a), Some(-7));
    assert_eq!(manager.get_exit_code(b), Some(2));
    assert!(!manager.ready_queue().contains(&a));
}

#[test]
fn exit_kills_and_switches() {
    let mut manager = boot();
    let a = spawn(&mut manager, "a");
    assert_eq!(timer(&mut manager), a);
    let mut trap = ProcessContext::default();
    let (killed, next) = exit(&mut manager, 9, &mut trap);
    assert!(matches!(killed, KillOutcome::Killed(_)));
    let next = next.unwrap();
    assert_eq!(next.pid, ProcessId(1));
    assert_eq!(next.page_table, PageTableContext::new(0x1000));
    assert_eq!(trap, *manager.current().read().context());
    assert_eq!(manager.get_exit_code(a), Some(9));
    assert_eq!(running(&manager), vec![ProcessId(1)]);
    assert!(manager.ready_queue().is_empty());
    for _ in 0..3 {
        assert_eq!(timer(&mut manager), ProcessId(1));
    }
}

#[test]
fn page_fault_below_the_stack_is_resolved() {
    let mut manager = boot();
    let a = spawn(&mut manager, "a");
    assert_eq!(timer(&mut manager), a);
    let low = manager.current().read().vm().stack.low;
    assert_eq!(low, 0x3fff_ffff_f000);
    let grown = manager.handle_page_fault(low - STACK_DEF_SIZE, 0b110);
    assert_eq!(grown, Some(PageSpan { start: low - 0x1000, count: 1 }));
    assert_eq!(manager.current().read().vm().stack.low, low - 0x1000);
    let grown = manager.handle_page_fault(0x3fff_0000_0000, 0);
    assert_eq!(grown, Some(PageSpan { start: 0x3fff_0000_0000, count: 0xfffff - 1 }));
}

#[test]
fn other_page_faults_are_fatal() {
    let mut manager = boot();
    let a = spawn(&mut manager, "a");
    assert_eq!(timer(&mut manager), a);
    let low = manager.current().read().vm().stack.low;
    for code in [1u64, 3, 5, 7, 0x8001] {
        assert_eq!(manager.handle_page_fault(low - 8, code), None);
    }
    for addr in [0x3fff_0000_0000 - 1, 0x3ffe_ffff_f000, 0, low, low + 8, u64::MAX] {
        assert_eq!(manager.handle_page_fault(addr, 2), None);
    }
    assert_eq!(manager.current().read().vm().stack.low, low);
    manager.kill_self(0);
    assert_eq!(manager.handle_page_fault(low - 8, 2), None);
}

#[test]
fn fork_registers_the_child() {
    let mut manager = boot();
    let a = spawn(&mut manager, "worker");
    assert_eq!(timer(&mut manager), a);
    let mut trap = *manager.current().read().context();
    trap.stack_frame.stack_pointer = 0x3fff_ffff_fe00;
    manager.save_current(&trap);
    let forked = manager.fork(PageTableContext::new(0x77_0000)).unwrap();
    assert_eq!(forked.child, ProcessId(3));
    assert_eq!(forked.page_table, PageTableContext::new(0x77_0000));
    assert_eq!(forked.parent_stack, PageSpan { start: 0x3fff_ffff_f000, count: 1 });
    assert_eq!(forked.child_stack, PageSpan { start: 0x3ffe_ffff_f000, count: 1 });
    assert_eq!(manager.ready_queue(), vec![ProcessId(1), a, ProcessId(3)]);
    let parent = manager.get_proc(a).unwrap().read();
    assert_eq!(parent.children().as_slice(), &[ProcessId(3)]);
    assert_eq!(parent.context().regs.rax, 3);
    assert_eq!(parent.status(), ProgramStatus::Ready);
    let child = manager.get_proc(ProcessId(3)).unwrap().read();
    assert_eq!(child.name(), "worker");
    assert_eq!(child.parent(), Some(a));
    assert_eq!(child.status(), ProgramStatus::Ready);
    assert_eq!(child.context().regs.rax, 0);
    assert_eq!(child.context().stack_frame.stack_pointer, 0x3ffe_ffff_fe00);
    assert_eq!(child.data(), parent.data());
    assert_eq!(child.vm().heap, parent.vm().heap);
}

#[test]
fn manager_fork_fails_without_a_window() {
    let mut manager = boot();
    assert_eq!(
        manager.fork(PageTableContext::new(0x77_0000)).err(),
        Some(ForkError::NoStackWindow)
    );
    assert!(manager.ready_queue().is_empty());
    assert!(manager.get_proc(ProcessId(2)).is_none());
    assert_eq!(status(&manager, ProcessId(1)), ProgramStatus::Running);
    assert_eq!(spawn(&mut manager, "a"), ProcessId(2));
}

#[test]
fn forked_child_shares_the_environment() {
    let mut manager = boot();
    let parent = spawn(&mut manager, "parent");
    assert_eq!(timer(&mut manager), parent);
    manager.set_env("X", "1");
    let child = manager.fork(PageTableContext::new(0x77_0000)).unwrap().child;
    let mut trap = ProcessContext::default();
    while manager.current_pid() != child {
        switch(&mut manager, &mut trap).unwrap();
    }
    assert_eq!(manager.env("X"), Some(String::from("1")));
    assert_eq!(manager.env("Y"), None);
    while manager.current_pid() != parent {
        switch(&mut manager, &mut trap).unwrap();
    }
    manager.set_env("X", "2");
    manager.set_env("Y", "3");
    while manager.current_pid() != child {
        switch(&mut manager, &mut trap).unwrap();
    }
    assert!(manager.still_alive(child));
    assert_eq!(manager.env("X"), Some(String::from("2")));
    assert_eq!(manager.env("Y"), Some(String::from("3")));
    while manager.current_pid() != ProcessId(1) {
        switch(&mut manager, &mut trap).unwrap();
    }
    assert_eq!(manager.env("X"), None);
}

#[test]
fn spawned_process_can_be_given_data() {
    let mut manager = boot();
    let data = ProcessData::new().set_env("id", "7").set_env("id", "8");
    let spawned = manager
        .spawn(Some(IMAGE), String::from("t"), None, Some(data), PageTableContext::new(2))
        .unwrap();
    assert_eq!(manager.get_proc(spawned.pid).unwrap().read().parent(), None);
    assert_eq!(timer(&mut manager), spawned.pid);
    assert_eq!(manager.env("id"), Some(String::from("8")));
    assert_eq!(manager.env("ID"), None);
}

fn sys_fork(manager: &mut ProcessManager, trap: &mut ProcessContext) -> ProcessId {
    manager.save_current(trap);
    let child = manager.fork(PageTableContext::new(0x77_0000)).unwrap().child;
    manager.switch_next(trap).unwrap();
    child
}

fn sys_wait(manager: &mut ProcessManager, key: u32, trap: &mut ProcessContext) -> SemaphoreResult {
    let (result, next) = ysos_kernel::service::sem_wait(manager, key, trap);
    if let Some(next) = next {
        next.unwrap();
    }
    result
}

fn run_until(manager: &mut ProcessManager, pid: ProcessId) {
    let mut steps = 0;
    while manager.current_pid() != pid {
        timer(manager);
        steps += 1;
        assert!(steps < 100);
    }
}

#[test]
fn mutex_lets_one_process_in() {
    let key = 0x1234;
    let mut manager = boot();
    let mut trap = ProcessContext::default();
    let first = spawn(&mut manager, "first");
    run_until(&mut manager, first);
    assert!(manager.sem_new(key, 1));
    let second = sys_fork(&mut manager, &mut trap);
    assert_eq!(second, ProcessId(3));

    run_until(&mut manager, first);
    assert_eq!(sys_wait(&mut manager, key, &mut trap), SemaphoreResult::Done);
    assert_eq!(manager.current_pid(), first);
    assert_eq!(manager.sem_count(key), Some(0));

    run_until(&mut manager, second);
    assert_eq!(sys_wait(&mut manager, key, &mut trap), SemaphoreResult::Block(second));
    assert_ne!(manager.current_pid(), second);
    assert_eq!(status(&manager, second), ProgramStatus::Blocked);
    assert!(!manager.ready_queue().contains(&second));
    for _ in 0..5 {
        assert_ne!(timer(&mut manager), second);
    }
    assert_eq!(status(&manager, second), ProgramStatus::Blocked);

    run_until(&mut manager, first);
    assert_eq!(manager.sem_count(key), Some(0));
    assert_eq!(manager.sem_signal(key), SemaphoreResult::WakeUp(second));
    assert_eq!(status(&manager, second), ProgramStatus::Ready);
    assert_eq!(manager.ready_queue().last(), Some(&second));
    assert_eq!(manager.sem_count(key), Some(0));

    run_until(&mut manager, second);
    assert_eq!(status(&manager, second), ProgramStatus::Running);
    assert_eq!(manager.sem_signal(key), SemaphoreResult::Done);
    assert_eq!(manager.sem_count(key), Some(1));
    run_until(&mut manager, first);
    assert_eq!(manager.sem_count(key), Some(1));
}

#[test]
fn waiters_are_woken_in_order() {
    let key = 7;
    let mut manager = boot();
    let mut trap = ProcessContext::default();
    let root = spawn(&mut manager, "root");
    run_until(&mut manager, root);
    assert!(manager.sem_new(key, 0));
    let a = sys_fork(&mut manager, &mut trap);
    run_until(&mut manager, root);
    let b = sys_fork(&mut manager, &mut trap);
    run_until(&mut manager, b);
    assert_eq!(sys_wait(&mut manager, key, &mut trap), SemaphoreResult::Block(b));
    run_until(&mut manager, a);
    assert_eq!(sys_wait(&mut manager, key, &mut trap), SemaphoreResult::Block(a));
    run_until(&mut manager, root);
    assert_eq!(manager.sem_signal(key), SemaphoreResult::WakeUp(b));
    assert_eq!(manager.sem_signal(key), SemaphoreResult::WakeUp(a));
    assert_eq!(manager.sem_signal(key), SemaphoreResult::Done);
    assert_eq!(manager.sem_count(key), Some(1));
    let queue = manager.ready_queue();
    let at_b = queue.iter().position(|pid| *pid == b).unwrap();
    let at_a = queue.iter().position(|pid| *pid == a).unwrap();
    assert!(at_b < at_a);
}

#[test]
fn unknown_semaphores_are_reported() {
    let mut manager = boot();
    assert_eq!(manager.sem_wait(1), SemaphoreResult::NotExist);
    assert_eq!(manager.sem_signal(1), SemaphoreResult::NotExist);
    assert_eq!(manager.sem_count(1), None);
    assert!(!manager.sem_remove(1));
    assert_eq!(status(&manager, ProcessId(1)), ProgramStatus::Running);
    assert!(manager.sem_new(1, 3));
    assert!(!manager.sem_new(1, 9));
    assert_eq!(manager.sem_count(1), Some(3));
    assert!(manager.sem_remove(1));
    assert_eq!(manager.sem_wait(1), SemaphoreResult::NotExist);
}

#[test]
fn signal_does_not_wake_the_dead() {
    let key = 5;
    let mut manager = boot();
    let mut trap = ProcessContext::default();
    let root = spawn(&mut manager, "root");
    run_until(&mut manager, root);
    manager.sem_new(key, 0);
    let child = sys_fork(&mut manager, &mut trap);
    run_until(&mut manager, child);
    assert_eq!(sys_wait(&mut manager, key, &mut trap), SemaphoreResult::Block(child));
    manager.kill(child, 1);
    run_until(&mut manager, root);
    let queue = manager.ready_queue();
    assert_eq!(manager.sem_signal(key), SemaphoreResult::WakeUp(child));
    assert_eq!(status(&manager, child), ProgramStatus::Dead);
    assert_eq!(manager.ready_queue(), queue);
    assert_eq!(manager.get_exit_code(child), Some(1));
}

#[test]
fn block_and_wake_up_move_between_states() {
    let mut manager = boot();
    let a = spawn(&mut manager, "a");
    manager.wake_up(a);
    assert_eq!(manager.ready_queue(), vec![a]);
    manager.block(a);
    assert_eq!(status(&manager, a), ProgramStatus::Blocked);
    manager.wake_up(a);
    assert_eq!(status(&manager, a), ProgramStatus::Ready);
    assert_eq!(manager.ready_queue(), vec![a, a]);
    manager.block(ProcessId(60));
    manager.wake_up(ProcessId(60));
    assert_eq!(manager.ready_queue(), vec![a, a]);
}

#[test]
fn manager_brk_round_trip() {
    let mut manager = boot();
    let a = spawn(&mut manager, "a");
    run_until(&mut manager, a);
    assert_eq!(manager.brk(None), BrkOutcome::Current(HEAP_START));
    let wanted = HEAP_START + 0x1000;
    assert_eq!(
        manager.brk(Some(wanted)),
        BrkOutcome::Resize {
            new_end: wanted,
            action: Some(MemoryAction::MapPages(PageSpan { start: HEAP_START, count: 1 })),
        }
    );
    assert_eq!(manager.brk(None), BrkOutcome::Current(HEAP_START));
    assert_eq!(manager.commit_brk(wanted), Some(wanted));
    assert_eq!(manager.brk(None), BrkOutcome::Current(wanted));
    assert_eq!(manager.brk(Some(HEAP_START - 1)), BrkOutcome::Rejected);
    assert_eq!(manager.commit_brk(HEAP_START - 1), None);
    assert_eq!(manager.commit_brk(u64::MAX), None);
    assert_eq!(manager.brk(None), BrkOutcome::Current(wanted));
    run_until(&mut manager, ProcessId(1));
    assert_eq!(manager.brk(None), BrkOutcome::Current(HEAP_START));
}

#[test]
fn forked_child_shares_the_heap_end() {
    let mut manager = boot();
    let mut trap = ProcessContext::default();
    let parent = spawn(&mut manager, "p");
    let other = spawn(&mut manager, "q");
    run_until(&mut manager, parent);
    manager.commit_brk(HEAP_START + 0x100);
    let child = sys_fork(&mut manager, &mut trap);
    run_until(&mut manager, child);
    assert_eq!(manager.brk(None), BrkOutcome::Current(HEAP_START + 0x100));
    manager.commit_brk(HEAP_START + 0x2100);
    run_until(&mut manager, parent);
    assert_eq!(manager.brk(None), BrkOutcome::Current(HEAP_START + 0x2100));
    run_until(&mut manager, other);
    assert_eq!(manager.brk(None), BrkOutcome::Current(HEAP_START));
    match manager.kill(child, 0) {
        KillOutcome::Killed(release) => {
            assert_eq!(release.heap, Some(PageSpan { start: HEAP_START, count: 3 }));
        }
        other => panic!("unexpected outcome {:?}", other),
    }
    run_until(&mut manager, parent);
    assert_eq!(manager.brk(None), BrkOutcome::Current(HEAP_START));
}

#[test]
fn current_process_reads_and_writes() {
    let mut manager = boot();
    let mut input = InputBuffer::new();
    let mut buf = [0u8; 8];
    assert_eq!(manager.handle(0), Some(Resource::Console(StdIO::Stdin)));
    assert_eq!(manager.handle(1), Some(Resource::Console(StdIO::Stdout)));
    assert_eq!(manager.handle(5), None);
    assert_eq!(manager.read(0, &mut input, &mut buf), 0);
    push_key(&mut input, b'q');
    push_key(&mut input, b'r');
    assert_eq!(manager.read(2, &mut input, &mut buf), -1);
    assert_eq!(manager.read(0, &mut input, &mut buf), 1);
    assert_eq!(buf[0], b'q');
    assert_eq!(manager.write(1, b"hello"), 5);
    assert_eq!(manager.write(2, b""), 0);
    assert_eq!(manager.write(0, b"hello"), -1);
    assert_eq!(manager.write(3, b"hello"), -1);
    manager.set_env("k", "v");
    assert_eq!(manager.env("k"), Some(String::from("v")));
}

#[test]
fn apps_are_listed_and_found() {
    let manager = boot();
    assert_eq!(manager.app_list().len(), 3);
    assert_eq!(manager.list_app(), "hello, sh, fact");
    assert_eq!(manager.find_app("hello"), Some(0));
    assert_eq!(manager.find_app("fact"), Some(2));
    assert_eq!(manager.find_app("Hello"), None);
    assert_eq!(manager.find_app(""), None);
    let empty = init(PageTableContext::new(0), Vec::new(), USER);
    assert_eq!(empty.list_app(), "");
    assert_eq!(empty.find_app("sh"), None);
    let one = init(PageTableContext::new(0), vec![String::from("sh"), String::from("sh")], USER);
    assert_eq!(one.list_app(), "sh, sh");
    assert_eq!(one.find_app("sh"), Some(0));
}

#[test]
fn process_list_shows_the_living() {
    let mut manager = boot();
    let a = spawn(&mut manager, "Alpha");
    let b = spawn(&mut manager, "beta");
    let c = spawn(&mut manager, "gamma");
    run_until(&mut manager, b);
    manager.commit_brk(HEAP_START + 0x1800);
    manager.handle_page_fault(0x3ffe_ffff_d000, 2);
    manager.kill(a, 0);
    manager.block(c);
    let rows = manager.print_process_list();
    assert_eq!(rows.len(), 3);
    assert_eq!(rows[0].pid, ProcessId(1));
    assert_eq!(rows[0].name, "kernel");
    assert_eq!(rows[0].parent, None);
    assert_eq!(rows[0].status, ProgramStatus::Ready);
    assert_eq!(rows[0].ticks_passed, 1);
    assert_eq!(rows[0].memory_usage, 0x100_0000);
    assert_eq!(rows[1].pid, b);
    assert_eq!(rows[1].name, "beta");
    assert_eq!(rows[1].parent, Some(ProcessId(1)));
    assert_eq!(rows[1].status, ProgramStatus::Running);
    assert_eq!(rows[1].ticks_passed, 0);
    assert_eq!(rows[1].memory_usage, 0x5000 + 0x3000 + 0x1800);
    assert_eq!(rows[2].pid, c);
    assert_eq!(rows[2].name, "gamma");
    assert_eq!(rows[2].status, ProgramStatus::Blocked);
    assert_eq!(rows[2].memory_usage, 0x5000 + 0x1000);
}

#[test]
fn fork_call_saves_forks_and_switches() {
    let mut manager = boot();
    let a = spawn(&mut manager, "a");
    run_until(&mut manager, a);
    let mut trap = *manager.current().read().context();
    trap.regs.rbx = 0xb;
    trap.stack_frame.stack_pointer = 0x3fff_ffff_fe80;
    let own = trap;
    let (forked, next) =
        ysos_kernel::service::fork(&mut manager, &mut trap, PageTableContext::new(0x88_0000))
            .unwrap();
    assert_eq!(forked.child, ProcessId(3));
    let next = next.unwrap();
    assert_eq!(next.pid, ProcessId(1));
    assert_eq!(next.page_table, PageTableContext::new(0x1000));
    assert_eq!(trap, *manager.current().read().context());
    assert_eq!(manager.current_pid(), ProcessId(1));
    assert_eq!(manager.ready_queue(), vec![a, ProcessId(3)]);
    let parent = manager.get_proc(a).unwrap().read();
    assert_eq!(parent.ticks_passed(), 1);
    assert_eq!(parent.context().regs.rbx, 0xb);
    assert_eq!(parent.context().regs.rax, 3);
    assert_eq!(parent.context().stack_frame, own.stack_frame);
    let child = manager.get_proc(ProcessId(3)).unwrap().read();
    assert_eq!(child.context().regs.rbx, 0xb);
    assert_eq!(child.context().regs.rax, 0);
    assert_eq!(child.context().stack_frame.stack_pointer, 0x3ffe_ffff_fe80);
    assert_eq!(running(&manager), vec![ProcessId(1)]);
}

#[test]
fn fork_call_fails_without_a_trace() {
    let mut manager = boot();
    let mut trap = ProcessContext::default();
    trap.regs.rax = 58;
    let before = trap;
    assert_eq!(manager.fork_error(), Some(ForkError::NoStackWindow));
    let failed =
        ysos_kernel::service::fork(&mut manager, &mut trap, PageTableContext::new(0x88_0000));
    assert_eq!(failed.err(), Some(ForkError::NoStackWindow));
    assert_eq!(trap, before);
    assert!(manager.ready_queue().is_empty());
    assert_eq!(manager.current().read().ticks_passed(), 0);
    assert_eq!(status(&manager, ProcessId(1)), ProgramStatus::Running);
    let a = spawn(&mut manager, "a");
    run_until(&mut manager, a);
    assert_eq!(manager.fork_error(), None);
}

#[test]
fn wait_call_switches_only_when_it_blocks() {
    let mut manager = boot();
    let a = spawn(&mut manager, "a");
    run_until(&mut manager, a);
    manager.sem_new(9, 1);
    let mut trap = ProcessContext::default();
    trap.regs.rdx = 4;
    let (result, next) = ysos_kernel::service::sem_wait(&mut manager, 9, &mut trap);
    assert_eq!(result, SemaphoreResult::Done);
    assert_eq!(next, None);
    assert_eq!(manager.current_pid(), a);
    let (result, next) = ysos_kernel::service::sem_wait(&mut manager, 10, &mut trap);
    assert_eq!(result, SemaphoreResult::NotExist);
    assert_eq!(next, None);
    let (result, next) = ysos_kernel::service::sem_wait(&mut manager, 9, &mut trap);
    assert_eq!(result, SemaphoreResult::Block(a));
    let switched = next.unwrap().unwrap();
    assert_eq!(switched.pid, ProcessId(1));
    assert_eq!(switched.page_table, PageTableContext::new(0x1000));
    assert_eq!(trap, *manager.get_proc(ProcessId(1)).unwrap().read().context());
    assert_eq!(status(&manager, a), ProgramStatus::Blocked);
    assert_eq!(manager.get_proc(a).unwrap().read().context().regs.rdx, 4);
    assert_eq!(manager.get_proc(a).unwrap().read().ticks_passed(), 1);
    assert!(manager.ready_queue().is_empty());
    assert_eq!(running(&manager), vec![ProcessId(1)]);
}

#[test]
fn wait_call_reports_when_nobody_can_run() {
    let mut manager = boot();
    manager.sem_new(9, 0);
    let mut trap = ProcessContext::default();
    let (result, next) = ysos_kernel::service::sem_wait(&mut manager, 9, &mut trap);
    assert_eq!(result, SemaphoreResult::Block(ProcessId(1)));
    assert_eq!(next, Some(Err(SchedulerError::NoRunnableProcess)));
    assert!(running(&manager).is_empty());
}

#[test]
fn poll_exit_tells_three_cases_apart() {
    let mut manager = boot();
    let a = spawn(&mut manager, "a");
    assert_eq!(manager.poll_exit(a), WaitOutcome::StillAlive);
    assert_eq!(manager.poll_exit(ProcessId(1)), WaitOutcome::StillAlive);
    assert_eq!(manager.poll_exit(ProcessId(9)), WaitOutcome::NotFound);
    manager.kill(a, -1);
    assert_eq!(manager.poll_exit(a), WaitOutcome::Exited(-1));
    assert_eq!(manager.wait_pid(a), -1);
}

#[test]
fn nothing_is_made_once_the_pids_are_used_up() {
    let mut counter = PidCounter::new();
    let mut store = DataStore::new();
    let mut ends = HeapEnds::new();
    ProcessId::new(&mut counter);
    let vm = ProcessVm::new(PageTableContext::new(0x1000), &mut ends);
    let mut first =
        Process::new(String::from("first"), None, vm, None, &mut counter, &mut store);
    assert_eq!(first.pid(), ProcessId(2));
    first.write().load_elf(&IMAGE, ProcessId(2)).unwrap();
    while counter.has_next() {
        ProcessId::new(&mut counter);
    }
    assert_eq!(counter.peek(), u16::MAX);
    let mut manager = ProcessManager::new(first, Vec::new(), counter, store, ends, USER);
    assert_eq!(manager.current_pid(), ProcessId(2));
    assert_eq!(status(&manager, ProcessId(2)), ProgramStatus::Running);
    assert_eq!(manager.fork_error(), Some(ForkError::NoPid));
    assert_eq!(
        manager.fork(PageTableContext::new(0x2000)).err(),
        Some(ForkError::NoPid)
    );
    assert_eq!(
        elf_spawn(&mut manager, String::from("x"), Some(IMAGE), PageTableContext::new(0x2000)).err(),
        Some(SpawnError::NoPid)
    );
    assert!(manager.ready_queue().is_empty());
    assert!(manager.get_proc(ProcessId(u16::MAX)).is_none());
    assert!(manager.current().read().children().is_empty());
}

#[test]
fn spawn_by_name_needs_a_listed_program() {
    let mut manager = boot();
    let table = PageTableContext::new(0x30_0000);
    assert_eq!(ysos_kernel::service::spawn(&mut manager, "nope", Some(IMAGE), table), None);
    assert_eq!(ysos_kernel::service::spawn(&mut manager, "SH", Some(IMAGE), table), None);
    assert_eq!(ysos_kernel::service::spawn(&mut manager, "sh", None, table), None);
    assert!(manager.ready_queue().is_empty());
    let spawned = ysos_kernel::service::spawn(&mut manager, "sh", Some(IMAGE), table).unwrap();
    assert_eq!(spawned.pid, ProcessId(2));
    assert_eq!(spawned.page_table, table);
    assert_eq!(spawned.stack, PageSpan { start: 0x3fff_ffff_f000, count: 1 });
    let process = manager.get_proc(ProcessId(2)).unwrap().read();
    assert_eq!(process.name(), "sh");
    assert_eq!(process.parent(), Some(ProcessId(1)));
    assert_eq!(manager.ready_queue(), vec![ProcessId(2)]);
}

#[test]
fn spawn_hands_back_zero_on_failure() {
    let mut manager = boot();
    let table = PageTableContext::new(0x30_0000);
    let failed = ysos_kernel::service::spawn(&mut manager, "nope", Some(IMAGE), table);
    assert_eq!(ysos_kernel::service::spawn_result(&failed), 0);
    let made = ysos_kernel::service::spawn(&mut manager, "hello", Some(IMAGE), table);
    assert_eq!(ysos_kernel::service::spawn_result(&made), 2);
}

#[test]
fn exit_reports_when_nobody_is_left() {
    let mut manager = boot();
    let mut trap = ProcessContext::default();
    trap.regs.rax = 60;
    let before = trap;
    let (killed, next) = exit(&mut manager, 3, &mut trap);
    assert!(matches!(killed, KillOutcome::Killed(_)));
    assert_eq!(next.err(), Some(SchedulerError::NoRunnableProcess));
    assert_eq!(trap, before);
    assert_eq!(manager.get_exit_code(ProcessId(1)), Some(3));
    let (killed, next) = exit(&mut manager, 4, &mut trap);
    assert_eq!(killed, KillOutcome::AlreadyDead);
    assert_eq!(next.err(), Some(SchedulerError::NoRunnableProcess));
    assert_eq!(manager.get_exit_code(ProcessId(1)), Some(3));
}

#[test]
fn switch_hands_back_the_page_table_of_the_next_process() {
    let mut manager = boot();
    let a = spawn(&mut manager, "a");
    let table = manager.get_proc(a).unwrap().read().page_table();
    let mut trap = ProcessContext::default();
    let next = switch(&mut manager, &mut trap).unwrap();
    assert_eq!(next.pid, a);
    assert_eq!(next.page_table, table);
    assert_eq!(trap, *manager.current().read().context());
    let next = switch(&mut manager, &mut trap).unwrap();
    assert_eq!(next.pid, ProcessId(1));
    assert_eq!(next.page_table, PageTableContext::new(0x1000));
}
