use stackful::fiber::{Stack, StackPointer};
use stackful::future::{ContextChain, StackfulFuture};
use stackful::generator::{ResumeStep, YieldPayload};

fn sp(addr: usize) -> StackPointer {
    StackPointer::new(addr).unwrap()
}

#[test]
fn wait_outside_any_body_blocks() {
    let chain: ContextChain<u32> = ContextChain::new();
    assert!(chain.current().is_none());
}

// run-sync-as-async(|| { A; wait(yield_once()); B; wait(sleep); C }) driven
// to completion: the chain holds the body's context only while it runs.
#[test]
fn sync_over_async_runs_to_completion() {
    let mut chain: ContextChain<&str> = ContextChain::new();
    let mut fut = StackfulFuture::new(Stack::from_region(0x200000).unwrap(), "body");
    let mut log: Vec<&str> = Vec::new();

    // First drive: the body starts, logs A, and its first wait is not ready.
    assert!(matches!(fut.begin_poll(), ResumeStep::Enter { func: "body", .. }));
    chain.install("drive 1");
    log.push("A");
    assert_eq!(chain.current(), Some(&"drive 1"));
    let popped = chain.suspend();
    assert_eq!(popped.ctx, "drive 1");
    assert!(chain.current().is_none());
    assert_eq!(fut.finish_poll::<(), (), ()>(Some(sp(0x10)), YieldPayload::Yielded(())), Ok(None));

    // Second drive: the wait is resumed with the new record, B, then sleeps.
    assert!(matches!(fut.begin_poll(), ResumeStep::Switch { target } if target == sp(0x10)));
    chain.install("drive 2");
    log.push("B");
    let _ = chain.suspend();
    assert_eq!(fut.finish_poll::<(), (), ()>(Some(sp(0x20)), YieldPayload::Yielded(())), Ok(None));

    // Third drive: C, and the body returns.
    assert!(matches!(fut.begin_poll(), ResumeStep::Switch { target } if target == sp(0x20)));
    chain.install("drive 3");
    log.push("C");
    chain.leave_body();
    assert!(chain.current().is_none());
    assert_eq!(fut.finish_poll::<(), (), ()>(None, YieldPayload::Complete(())), Ok(Some(())));
    assert_eq!(log, vec!["A", "B", "C"]);

    // A wait on the main thread afterwards blocks instead.
    assert!(chain.current().is_none());
    assert!(fut.retire().0.is_none());
}

#[test]
fn drop_before_polling() {
    let chain: ContextChain<u8> = ContextChain::new();
    let fut = StackfulFuture::new(Stack::from_region(0x200000).unwrap(), ());
    let (abort, stack) = fut.retire();
    assert!(abort.is_none());
    assert_eq!(stack.bottom(), 0x200000);
    assert!(chain.current().is_none());
}

#[test]
fn drop_after_polling() {
    let mut chain: ContextChain<u8> = ContextChain::new();
    let mut fut = StackfulFuture::new(Stack::from_region(0x200000).unwrap(), ());
    let _ = fut.begin_poll();
    chain.install(1);
    let _ = chain.suspend();
    assert_eq!(fut.finish_poll::<(), (), ()>(Some(sp(0x30)), YieldPayload::Yielded(())), Ok(None));

    let (abort, _) = fut.retire();
    assert_eq!(abort, Some(sp(0x30)));
    // The abort unwinds the body through its yield and its exit.
    assert!(chain.can_mark());
    chain.mark_unwinding();
    chain.leave_body();
    assert!(chain.current().is_none());
}

#[test]
fn drop_inside_another_body_keeps_its_context() {
    let mut chain: ContextChain<u8> = ContextChain::new();
    chain.install(5);
    chain.mark_unwinding();
    chain.leave_body();
    assert_eq!(chain.current(), Some(&5));
    // The dropper's own exit still removes its context.
    chain.leave_body();
    assert!(chain.current().is_none());
}

#[test]
fn nested_unwinds_are_counted_off_one_each() {
    let mut chain: ContextChain<u8> = ContextChain::new();
    chain.install(1);
    chain.install(2);
    chain.mark_unwinding();
    chain.mark_unwinding();
    chain.leave_body();
    chain.leave_body();
    assert_eq!(chain.current(), Some(&2));
    chain.leave_body();
    assert_eq!(chain.current(), Some(&1));
}

#[test]
fn panic_in_body() {
    let mut chain: ContextChain<u8> = ContextChain::new();
    let mut fut = StackfulFuture::new(Stack::from_region(0x200000).unwrap(), ());
    let _ = fut.begin_poll();
    chain.install(1);
    let _ = chain.suspend();
    assert_eq!(fut.finish_poll::<(), u8, &str>(Some(sp(0x30)), YieldPayload::Yielded(())), Ok(None));
    let _ = fut.begin_poll();
    chain.install(2);
    chain.leave_body();
    assert!(chain.current().is_none());
    let payload = YieldPayload::<(), u8, &str>::from_outcome(Err("explicit panic"));
    assert_eq!(fut.finish_poll(None, payload), Err("explicit panic"));
    assert!(fut.retire().0.is_none());
}

#[test]
fn nested_body_restores_outer_context() {
    let mut chain: ContextChain<u8> = ContextChain::new();
    chain.install(1);
    chain.install(2);
    assert_eq!(chain.current(), Some(&2));
    chain.leave_body();
    assert_eq!(chain.current(), Some(&1));
}
