use stackful::fiber::{Stack, StackPointer, SwitchResult, STACK_SIZE};
use stackful::page_size::{accept, MIN_PAGE_SIZE};

#[test]
fn null_stack_pointer_is_refused() {
    assert!(StackPointer::new(0).is_none());
    let sp = StackPointer::new(0x7000).unwrap();
    assert_eq!(sp.get(), 0x7000);
}

#[test]
fn stack_region_bounds() {
    let stack = Stack::from_region(0x10000).unwrap();
    assert_eq!(stack.bottom(), 0x10000);
    assert_eq!(stack.top().get(), 0x10000 + 0x200000);
    assert_eq!(STACK_SIZE, 0x200000);
}

#[test]
fn empty_cache_and_failed_mapping_give_no_stack() {
    // An empty cache slot holds zero; a failed mapping returns the all-ones word.
    assert!(Stack::from_region(0).is_none());
    assert!(Stack::from_region(usize::MAX).is_none());
    assert!(Stack::from_region(usize::MAX - STACK_SIZE + 1).is_none());
    let highest = Stack::from_region(usize::MAX - STACK_SIZE).unwrap();
    assert_eq!(highest.top().get(), usize::MAX);
}

#[test]
fn guard_is_lowest_page() {
    let stack = Stack::from_region(0x40000).unwrap();
    assert_eq!(stack.guard(4096), (0x40000, 0x41000));
    assert_eq!(stack.guard(16384), (0x40000, 0x44000));
}

#[test]
fn page_size_below_minimum_is_refused() {
    assert_eq!(accept(-1), None);
    assert_eq!(accept(0), None);
    assert_eq!(accept(4095), None);
    assert_eq!(accept(4096), Some(MIN_PAGE_SIZE));
    assert_eq!(accept(65536), Some(65536));
}

#[test]
fn switch_result_carries_pointer_and_word() {
    let r = SwitchResult { stack: StackPointer::new(0x900), payload: 17 };
    assert_eq!(r.stack, StackPointer::new(0x900));
    assert_eq!(r.payload, 17);
}
