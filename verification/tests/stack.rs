use ysos_kernel::memory::{PageSpan, PAGE_SIZE};
use ysos_kernel::pid::ProcessId;
use ysos_kernel::stack::{
    Stack, KSTACK_DEF_SIZE, KSTACK_INIT_BOT, KSTACK_MAX, STACK_DEF_PAGE, STACK_DEF_SIZE,
    STACK_INIT_BOT, STACK_INIT_TOP, STACK_LOWEST, STACK_MAX, STACK_MAX_PAGES, STACK_MAX_SIZE,
    STACK_SLOTS,
};

#[test]
fn stack_constants_fit_together() {
    assert_eq!(STACK_MAX_SIZE, STACK_MAX_PAGES * PAGE_SIZE);
    assert_eq!(STACK_DEF_SIZE, STACK_DEF_PAGE * PAGE_SIZE);
    assert_eq!(STACK_INIT_BOT, STACK_MAX - STACK_DEF_SIZE);
    assert_eq!(STACK_INIT_TOP, STACK_MAX - 8);
    assert_eq!(STACK_LOWEST, STACK_MAX - STACK_SLOTS * STACK_MAX_SIZE);
    assert_eq!(KSTACK_INIT_BOT, KSTACK_MAX - KSTACK_DEF_SIZE);
}

#[test]
fn empty_stack_sits_at_the_top() {
    let stack = Stack::empty();
    assert_eq!(stack.floor, 0x3fff_0000_0000);
    assert_eq!(stack.low, STACK_MAX);
    assert_eq!(stack.memory_usage(), 0);
    assert_eq!(stack.init_top(), STACK_INIT_TOP);
}

#[test]
fn init_maps_the_default_page() {
    let mut stack = Stack::empty();
    let mapped = stack.init().unwrap();
    assert_eq!(mapped, PageSpan { start: STACK_INIT_BOT, count: 1 });
    assert_eq!(stack.low, STACK_INIT_BOT);
    assert_eq!(stack.memory_usage(), 0x1000);
    assert_eq!(stack.pages(), mapped);
    let before = stack;
    assert_eq!(stack.init(), None);
    assert_eq!(stack, before);
}

#[test]
fn pid_selects_the_window() {
    assert_eq!(Stack::for_pid(ProcessId(0)), None);
    assert_eq!(Stack::for_pid(ProcessId(1)), None);
    let second = Stack::for_pid(ProcessId(2)).unwrap();
    assert_eq!(second, Stack::empty());
    let third = Stack::for_pid(ProcessId(3)).unwrap();
    assert_eq!(third.floor, 0x3ffe_0000_0000);
    assert_eq!(third.low, 0x3fff_0000_0000);
    let last = Stack::for_pid(ProcessId(0x2000)).unwrap();
    assert_eq!(last.floor, STACK_LOWEST);
    assert_eq!(Stack::for_pid(ProcessId(0x2001)), None);
    assert_eq!(Stack::for_pid(ProcessId(u16::MAX)), None);
}

#[test]
fn windows_of_neighbours_touch_but_do_not_overlap() {
    for raw in 2u16..200 {
        let upper = Stack::for_pid(ProcessId(raw)).unwrap();
        let lower = Stack::for_pid(ProcessId(raw + 1)).unwrap();
        assert_eq!(lower.floor + STACK_MAX_SIZE, upper.floor);
    }
}

#[test]
fn kernel_stack_is_mapped_from_the_start() {
    let stack = Stack::kstack();
    assert_eq!(stack.floor, 0xffff_ff01_0000_0000);
    assert_eq!(stack.low, KSTACK_INIT_BOT);
    assert_eq!(stack.memory_usage(), KSTACK_DEF_SIZE);
    assert_eq!(stack.init_top(), 0xffff_ff01_ffff_fff8);
    assert_eq!(stack.pages(), PageSpan { start: KSTACK_INIT_BOT, count: 4096 });
}

#[test]
fn fault_one_page_below_extends_the_stack() {
    let mut stack = Stack::empty();
    stack.init();
    let low = stack.low;
    let grown = stack.handle_page_fault(low - STACK_DEF_SIZE);
    assert_eq!(grown, Some(PageSpan { start: low - 0x1000, count: 1 }));
    assert_eq!(stack.low, low - 0x1000);
    assert_eq!(stack.memory_usage(), 0x2000);
}

#[test]
fn fault_inside_a_page_maps_down_to_its_start() {
    let mut stack = Stack::empty();
    stack.init();
    let grown = stack.handle_page_fault(0x3fff_ffff_b123);
    assert_eq!(grown, Some(PageSpan { start: 0x3fff_ffff_b000, count: 4 }));
    assert_eq!(stack.low, 0x3fff_ffff_b000);
}

#[test]
fn fault_at_the_window_floor_is_resolved() {
    let mut stack = Stack::empty();
    stack.init();
    let grown = stack.handle_page_fault(0x3fff_0000_0000);
    assert_eq!(grown, Some(PageSpan { start: 0x3fff_0000_0000, count: 0xfffff }));
    assert_eq!(stack.low, stack.floor);
    assert_eq!(stack.memory_usage(), STACK_MAX_SIZE);
}

#[test]
fn fault_below_the_window_is_refused() {
    let mut stack = Stack::empty();
    stack.init();
    let before = stack;
    assert_eq!(stack.handle_page_fault(0x3fff_0000_0000 - 1), None);
    assert_eq!(stack.handle_page_fault(0x3ffe_ffff_f000), None);
    assert_eq!(stack.handle_page_fault(0), None);
    assert_eq!(stack, before);
}

#[test]
fn fault_in_the_mapped_part_is_refused() {
    let mut stack = Stack::empty();
    stack.init();
    let before = stack;
    assert_eq!(stack.handle_page_fault(STACK_INIT_BOT), None);
    assert_eq!(stack.handle_page_fault(STACK_INIT_TOP), None);
    assert_eq!(stack.handle_page_fault(STACK_MAX), None);
    assert_eq!(stack.handle_page_fault(u64::MAX), None);
    assert_eq!(stack, before);
}

#[test]
fn kernel_stack_grows_in_the_upper_half() {
    let mut stack = Stack::kstack();
    let grown = stack.handle_page_fault(KSTACK_INIT_BOT - 1);
    assert_eq!(grown, Some(PageSpan { start: KSTACK_INIT_BOT - 0x1000, count: 1 }));
    assert_eq!(stack.handle_page_fault(0xffff_ff00_ffff_ffff), None);
}

#[test]
fn is_on_stack_means_inside_the_window() {
    let stack = Stack::empty();
    assert!(stack.is_on_stack(0x3fff_0000_0000));
    assert!(stack.is_on_stack(0x3fff_ffff_ffff));
    assert!(!stack.is_on_stack(0x3ffe_ffff_ffff));
    assert!(!stack.is_on_stack(STACK_MAX));
}

#[test]
fn forked_stack_is_a_copy_further_down() {
    let mut parent = Stack::empty();
    parent.init();
    parent.handle_page_fault(0x3fff_ffff_d000);
    let first = parent.fork(0).unwrap();
    assert_eq!(first.floor, 0x3ffe_0000_0000);
    assert_eq!(first.low, 0x3ffe_ffff_d000);
    assert_eq!(first.memory_usage(), parent.memory_usage());
    let second = parent.fork(1).unwrap();
    assert_eq!(second.floor, 0x3ffd_0000_0000);
    assert_eq!(second.low, 0x3ffd_ffff_d000);
    assert_eq!(first.stack_offset(&parent), STACK_MAX_SIZE);
    assert_eq!(second.stack_offset(&parent), 2 * STACK_MAX_SIZE);
}

#[test]
fn fork_fails_without_a_window() {
    let parent = Stack::empty();
    assert!(parent.fork(STACK_SLOTS - 2).is_some());
    assert_eq!(parent.fork(STACK_SLOTS - 1), None);
    assert_eq!(parent.fork(u64::MAX), None);
    let lowest = Stack::for_pid(ProcessId(0x2000)).unwrap();
    assert_eq!(lowest.fork(0), None);
    assert_eq!(Stack::kstack().fork(0), None);
}

#[test]
fn windows_are_numbered_from_the_top() {
    assert_eq!(Stack::in_window(0), Stack::empty());
    let stack = Stack::in_window(5);
    assert_eq!(stack.floor, STACK_MAX - 6 * STACK_MAX_SIZE);
    assert_eq!(stack.low, STACK_MAX - 5 * STACK_MAX_SIZE);
    assert_eq!(stack.memory_usage(), 0);
    assert_eq!(Stack::in_window(STACK_SLOTS - 1).floor, STACK_LOWEST);
    assert_eq!(Some(Stack::in_window(7)), Stack::for_pid(ProcessId(9)));
}

#[test]
fn span_between_two_page_boundaries() {
    assert_eq!(PageSpan::between(0x4000, 0x4000), PageSpan { start: 0x4000, count: 0 });
    assert_eq!(PageSpan::between(0x4000, 0x9000), PageSpan { start: 0x4000, count: 5 });
    assert_eq!(PageSpan::between(0, PAGE_SIZE), PageSpan { start: 0, count: 1 });
}
