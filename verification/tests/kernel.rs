use r3::closure::{Closure, ClosureEnv};
use r3::kernel::cfg::Cfg;
use r3::kernel::error::{ActivateTaskError, ResultCode, UnparkError, UnparkExactError};
use r3::kernel::hook::StartupHook;
use r3::kernel::hunk::Hunk;
use r3::kernel::interrupt::{
    combined_handler_calls, new_interrupt_handler_table, InterruptLine, num_required_interrupt_line_slots,
    sort_handlers, CfgInterruptHandler,
};
use r3::kernel::raw_cfg::RawCfg;
use r3::kernel::semaphore::SemaphoreRef;
use r3::kernel::task::TaskRef;
use r3::kernel::raw::QueueOrder;
use r3::kernel::wait::{WaitPayload, WaitQueue};

#[test]
fn hunks_are_aligned_and_disjoint() {
    let mut cfg = Cfg::new(RawCfg::new());
    let a = Hunk::build().len(3).align(1).finish(&mut cfg);
    let b = Hunk::build().len(8).align(4).finish(&mut cfg);
    let c = Hunk::build().len(1).align(16).finish(&mut cfg);
    assert_eq!(a.offset(), 0);
    assert_eq!(b.offset(), 4);
    assert_eq!(c.offset(), 16);
    assert_eq!(cfg.hunk_pool_len, 17);
    assert_eq!(cfg.hunk_pool_align, 16);
}

#[test]
fn hunk_address_wraps() {
    let h = Hunk::from_offset(16);
    assert_eq!(h.as_ptr(0x1000), 0x1010);
    assert_eq!(h.as_ptr(usize::MAX), 15);
}

#[test]
fn startup_hooks_run_by_priority_then_registration() {
    let mut cfg = Cfg::new(RawCfg::new());
    StartupHook::define().start(10).priority(5).finish(&mut cfg);
    StartupHook::define().start(11).priority(1).finish(&mut cfg);
    StartupHook::define().start(12).priority(5).finish(&mut cfg);
    StartupHook::define().start(13).priority(-1).unchecked().finish(&mut cfg);
    let params = cfg.finish_pre();
    let starts: Vec<usize> = params.startup_hooks.iter().map(|h| h.start).collect();
    assert_eq!(starts, vec![13, 11, 10, 12]);
}

#[test]
fn startup_hook_param() {
    let mut cfg = Cfg::new(RawCfg::new());
    StartupHook::define().start(7).param(99).finish(&mut cfg);
    let params = cfg.finish_pre();
    assert_eq!(params.startup_hooks[0].param, 99);
}

#[test]
fn typed_hunk_registers_initializer() {
    let mut cfg = Cfg::new(RawCfg::new());
    let _pad = Hunk::build().len(1).finish(&mut cfg);
    let h = r3::hunk::Hunk::<u64>::define().finish(&mut cfg, 77);
    assert_eq!(r3::hunk::Hunk::untyped_hunk(h).offset(), 8);
    assert_eq!(cfg.hunk_pool_len, 16);
    assert_eq!(cfg.startup_hooks.len(), 1);
    assert_eq!(cfg.startup_hooks[0].start, 77);
    assert_eq!(cfg.startup_hooks[0].param, 8);
    assert_eq!(cfg.startup_hooks[0].priority, r3::hunk::INIT_HOOK_PRIORITY);
    assert_eq!(r3::hunk::Hunk::as_bytes_ptr(h, 0x100), (0x108, 8));
}

#[test]
fn zeroed_typed_hunk_needs_no_initializer() {
    let mut cfg = Cfg::new(RawCfg::new());
    let h = r3::hunk::Hunk::<u32>::define().align(8).zeroed().finish(&mut cfg, 77);
    assert_eq!(r3::hunk::Hunk::as_ptr(h, 0x40), 0x40);
    assert_eq!(cfg.hunk_pool_align, 8);
    assert!(cfg.startup_hooks.is_empty());
}

#[test]
fn typed_array_hunk() {
    let mut cfg = Cfg::new(RawCfg::new());
    let _pad = Hunk::build().len(1).finish(&mut cfg);
    let h = r3::hunk::Hunk::<[u16]>::define().len(5).zeroed().finish(&mut cfg);
    assert_eq!(r3::hunk::Hunk::as_bytes_ptr(h, 0), (2, 10));
    assert_eq!(cfg.hunk_pool_len, 12);
}

#[test]
fn max_of_two() {
    assert_eq!(r3::hunk::max(3, 9), 9);
    assert_eq!(r3::hunk::max(9, 3), 9);
}

fn handler(line: usize, start: usize, priority: i32, order: usize) -> CfgInterruptHandler {
    CfgInterruptHandler { line, start, param: order, priority, unmanaged: false, order }
}

#[test]
fn interrupt_handler_table() {
    let mut handlers = vec![
        handler(3, 30, 0, 0),
        handler(1, 10, 5, 1),
        handler(3, 31, -2, 2),
        handler(1, 11, 5, 3),
    ];
    sort_handlers(&mut handlers);
    let lines: Vec<(usize, usize)> = handlers.iter().map(|h| (h.line, h.start)).collect();
    assert_eq!(lines, vec![(1, 10), (1, 11), (3, 31), (3, 30)]);
    let slots = num_required_interrupt_line_slots(&handlers);
    assert_eq!(slots, 4);
    let table = new_interrupt_handler_table(&handlers, slots);
    assert_eq!(table, vec![None, Some(0), None, Some(2)]);
    assert_eq!(combined_handler_calls(&handlers, 2), vec![(31, 2), (30, 0)]);
    assert_eq!(combined_handler_calls(&handlers, 0), vec![(10, 1), (11, 3)]);
}

#[test]
fn fifo_wait_queue() {
    let mut q = WaitQueue::new(QueueOrder::Fifo);
    q.wait(1, 5, WaitPayload::Park);
    q.wait(2, 1, WaitPayload::Park);
    assert_eq!(q.first_waiting_task(), Some(1));
    assert_eq!(q.wake_up_one().map(|w| w.task), Some(1));
    assert_eq!(q.wake_up_one().map(|w| w.task), Some(2));
    assert_eq!(q.wake_up_one(), None);
}

#[test]
fn priority_wait_queue_is_fifo_among_equals() {
    let mut q = WaitQueue::new(QueueOrder::TaskPriority);
    q.wait(1, 5, WaitPayload::Semaphore);
    q.wait(2, 1, WaitPayload::Semaphore);
    q.wait(3, 5, WaitPayload::Semaphore);
    q.wait(4, 1, WaitPayload::Semaphore);
    let mut order = Vec::new();
    while let Some(w) = q.wake_up_one() {
        order.push(w.task);
    }
    assert_eq!(order, vec![2, 4, 1, 3]);
}

#[test]
fn reorder_and_interrupt() {
    let mut q = WaitQueue::new(QueueOrder::TaskPriority);
    q.wait(1, 1, WaitPayload::Sleep);
    q.wait(2, 2, WaitPayload::Sleep);
    q.wait(3, 3, WaitPayload::Sleep);
    q.reorder_wait(3, 0);
    assert_eq!(q.first_waiting_task(), Some(3));
    assert_eq!(q.interrupt_task(1).map(|w| w.task), Ok(1));
    assert!(q.interrupt_task(1).is_err());
    assert_eq!(q.wake_up_one().map(|w| w.task), Some(3));
    assert_eq!(q.wake_up_one().map(|w| w.task), Some(2));
}

#[test]
fn wake_up_all_conditional_selects_in_order() {
    let mut q = WaitQueue::new(QueueOrder::Fifo);
    q.wait(1, 0, WaitPayload::Mutex(7));
    q.wait(2, 0, WaitPayload::Park);
    q.wait(3, 0, WaitPayload::Mutex(8));
    let woken = q.wake_up_all_conditional(|p: &WaitPayload| matches!(p, WaitPayload::Mutex(_)));
    let tasks: Vec<usize> = woken.iter().map(|w| w.task).collect();
    assert_eq!(tasks, vec![1, 3]);
    assert_eq!(q.first_waiting_task(), Some(2));
}

#[test]
fn result_codes() {
    assert_eq!(ResultCode::Success.value(), 0);
    assert_eq!(ResultCode::Timeout.value(), -50);
    assert!(ResultCode::BadParam.is_err());
    assert!(ResultCode::Success.is_ok());
    assert_eq!(ResultCode::WouldDeadlock.as_str(), "WouldDeadlock");
    assert_eq!(ActivateTaskError::QueueOverflow.to_result_code(), ResultCode::QueueOverflow);
    assert_eq!(ActivateTaskError::result_to_result_code(Ok(())), ResultCode::Success);
}

#[test]
fn unpark_ignores_overflow() {
    assert_eq!(TaskRef::unpark(Err(UnparkExactError::QueueOverflow)), Ok(()));
    assert_eq!(TaskRef::unpark(Err(UnparkExactError::BadContext)), Err(UnparkError::BadContext));
}

#[test]
fn objects_are_numbered_in_definition_order() {
    let mut cfg = Cfg::new(RawCfg::new());
    let t0 = TaskRef::define().start(1).priority(2).finish(&mut cfg);
    let t1 = TaskRef::define().start(3).priority(0).active(true).finish(&mut cfg);
    assert_eq!((t0.id, t1.id), (0, 1));
    assert_eq!(cfg.raw.tasks[1].start, 3);
    assert!(cfg.raw.tasks[1].active);
    let s = SemaphoreRef::define().initial(1).maximum(2).finish(&mut cfg);
    assert_eq!(s.id, 0);
    assert_eq!(cfg.raw.semaphores[0].maximum, 2);
}

#[test]
fn timer_start_stores_the_closure() {
    let d = r3::kernel::timer::TimerRef::define().start((5usize, 7usize));
    assert_eq!(d.start, Some(Closure::from_raw_parts(5, ClosureEnv(7))));
    let c = Closure::from_raw_parts(9, ClosureEnv(3));
    assert_eq!(r3::kernel::timer::TimerRef::define().start(c).start, Some(c));
}

#[test]
fn interrupt_line_numbers() {
    assert_eq!(InterruptLine::from_num(4).num(), 4);
    assert_eq!(InterruptLine::from_num(4), InterruptLine::from_num(4));
    assert_ne!(InterruptLine::from_num(4), InterruptLine::from_num(5));
}

#[test]
fn hunk_default_is_at_offset_zero() {
    assert_eq!(Hunk::default().offset(), 0);
    assert_eq!(Hunk::from_offset(12).offset(), 12);
}
