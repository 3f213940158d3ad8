use std::cell::RefCell;

use violet::library::vm::trap::{Trap, TrapMap};
use violet::library::vm::trap_dispatcher::{TrapContext, TrapDispatcher, TrapPriority, TrapResult};

type Matcher<'a> = Box<dyn Fn(&TrapContext) -> bool + 'a>;
type Handler<'a> = Box<dyn Fn(&TrapContext) -> TrapResult + 'a>;

fn always(_ctx: &TrapContext) -> bool {
    true
}

fn only_cause_1(ctx: &TrapContext) -> bool {
    ctx.cause == 1
}

#[test]
fn test_priority_and_matcher() {
    let log = RefCell::new(Vec::new());
    let mut disp: TrapDispatcher<Matcher<'_>, Handler<'_>> = TrapDispatcher::new();
    // High priority, only cause==1
    disp.register(
        TrapPriority::High,
        Some(Box::new(only_cause_1) as Matcher),
        Box::new(|_ctx: &TrapContext| {
            log.borrow_mut().push(1);
            TrapResult::Continue
        }),
    );
    // Low priority, always
    disp.register(
        TrapPriority::Low,
        None,
        Box::new(|_ctx: &TrapContext| {
            log.borrow_mut().push(2);
            TrapResult::Handled
        }),
    );
    // Normal priority, always
    disp.register(
        TrapPriority::Normal,
        Some(Box::new(always) as Matcher),
        Box::new(|_ctx: &TrapContext| {
            log.borrow_mut().push(3);
            TrapResult::Continue
        }),
    );
    let regs = [0usize; 32];
    let ctx = TrapContext { cause: 1, regs: &regs };
    assert_eq!(disp.dispatch(&ctx), TrapResult::Handled);
    // Should call: High (1), Normal (3), Low (2) in order, stop at Handled
    assert_eq!(*log.borrow(), [1, 3, 2]);
}

#[test]
fn test_matcher_none() {
    let mut disp: TrapDispatcher<Matcher<'_>, Handler<'_>> = TrapDispatcher::new();
    disp.register(TrapPriority::Normal, None, Box::new(|_ctx: &TrapContext| TrapResult::Handled));
    let regs = [0usize; 32];
    let ctx = TrapContext { cause: 0, regs: &regs };
    assert!(matches!(disp.dispatch(&ctx), TrapResult::Handled));
}

#[test]
fn trap_dispatch_stops_at_handled_and_skips_unmatched() {
    let log = RefCell::new(Vec::new());
    let mut disp: TrapDispatcher<Matcher<'_>, Handler<'_>> = TrapDispatcher::new();
    disp.register(
        TrapPriority::Normal,
        None,
        Box::new(|_ctx: &TrapContext| {
            log.borrow_mut().push("first normal");
            TrapResult::Handled
        }),
    );
    disp.register(
        TrapPriority::Normal,
        None,
        Box::new(|_ctx: &TrapContext| {
            log.borrow_mut().push("second normal");
            TrapResult::Handled
        }),
    );
    disp.register(
        TrapPriority::High,
        Some(Box::new(only_cause_1) as Matcher),
        Box::new(|_ctx: &TrapContext| {
            log.borrow_mut().push("high");
            TrapResult::Handled
        }),
    );
    let regs = [0usize; 4];
    assert_eq!(disp.dispatch(&TrapContext { cause: 2, regs: &regs }), TrapResult::Handled);
    assert_eq!(*log.borrow(), ["first normal"]);
}

#[test]
fn trap_dispatch_nothing_handles() {
    let mut disp: TrapDispatcher<Matcher<'_>, Handler<'_>> = TrapDispatcher::new();
    let regs = [0usize; 4];
    assert_eq!(disp.dispatch(&TrapContext { cause: 0, regs: &regs }), TrapResult::Continue);
    disp.register(TrapPriority::Low, Some(Box::new(only_cause_1) as Matcher), Box::new(|_ctx: &TrapContext| TrapResult::Handled));
    disp.register(TrapPriority::High, None, Box::new(|_ctx: &TrapContext| TrapResult::Continue));
    assert_eq!(disp.dispatch(&TrapContext { cause: 0, regs: &regs }), TrapResult::Continue);
    assert_eq!(disp.dispatch(&TrapContext { cause: 1, regs: &regs }), TrapResult::Handled);
}

#[test]
fn trap_map_registers() {
    let mut map = TrapMap::new();
    assert_eq!(map.register_trap(5, 0x8000_0000, true, true), Ok(()));
    assert_eq!(map.register_trap(6, 0x8000_0000, false, true), Err(()));
    assert_eq!(map.register_trap(7, 0x8000_0000, true, false), Err(()));
    assert_eq!(map.register_traps(&[(7, 0x8000_1000), (9, 0x8000_2000)], &[(true, true), (true, true)]), Ok(()));
    assert_eq!(map.register_traps(&[], &[]), Ok(()));
    assert_eq!(Trap::new(5, 1), Trap::new(5, 1));
    assert_ne!(Trap::new(5, 1), Trap::new(5, 2));
}

#[test]
fn trap_map_stops_at_first_failure() {
    let mut map = TrapMap::new();
    let traps = [(1, 0x10), (2, 0x20), (3, 0x30)];
    assert_eq!(map.register_traps(&traps, &[(true, true), (true, false), (true, true)]), Err(()));
    assert_eq!(map.register_traps(&traps, &[(false, true), (true, true), (true, true)]), Err(()));
}
