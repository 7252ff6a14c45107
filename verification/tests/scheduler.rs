use std::sync::atomic::{AtomicBool, Ordering};
use sysmon::scheduler::{
    set_refresh_callback, CallbackSlot, Scheduler, SchedulerAction, SchedulerState,
};

static CALLED: AtomicBool = AtomicBool::new(false);

fn mark_called(_opened: bool) {
    CALLED.store(true, Ordering::SeqCst);
}

fn never_called(_opened: bool) {
    panic!("the second published callback must be ignored");
}

#[test]
fn start_from_idle_ticks_immediately() {
    let mut s = Scheduler::new();
    let acts = s.start(1000);
    assert_eq!(
        acts,
        vec![
            SchedulerAction::DeliverTick,
            SchedulerAction::StartWorker { interval_ms: 1000 },
        ]
    );
    assert_eq!(s.state, SchedulerState::Running { interval_ms: 1000 });
}

#[test]
fn start_while_running_stops_the_old_task_first() {
    let mut s = Scheduler::new();
    let _ = s.start(1000);
    let acts = s.start(500);
    assert_eq!(
        acts,
        vec![
            SchedulerAction::StopWorker,
            SchedulerAction::DeliverTick,
            SchedulerAction::StartWorker { interval_ms: 500 },
        ]
    );
    assert_eq!(s.state, SchedulerState::Running { interval_ms: 500 });
}

#[test]
fn stop_delivers_nothing() {
    let mut s = Scheduler::new();
    let _ = s.start(1000);
    let acts = s.stop();
    assert_eq!(acts, vec![SchedulerAction::StopWorker]);
    assert!(!acts.contains(&SchedulerAction::DeliverTick));
    assert_eq!(s.state, SchedulerState::Idle);
}

#[test]
fn stop_when_idle_is_a_no_op() {
    let mut s = Scheduler::new();
    let acts = s.stop();
    assert!(acts.is_empty());
    assert_eq!(s.state, SchedulerState::Idle);
}

#[test]
fn interval_elapsed_ticks_only_while_running() {
    let mut s = Scheduler::new();
    assert!(s.interval_elapsed().is_empty());
    let _ = s.start(1000);
    assert_eq!(s.interval_elapsed(), vec![SchedulerAction::DeliverTick]);
    let _ = s.stop();
    // A stale worker report after the stop is dropped: no tick after stop.
    assert!(s.interval_elapsed().is_empty());
}

#[test]
fn callback_slot_is_write_once() {
    let mut slot: CallbackSlot<i32> = CallbackSlot::empty();
    assert!(slot.callback().is_none());
    set_refresh_callback(&mut slot, 1);
    set_refresh_callback(&mut slot, 2);
    assert_eq!(*slot.callback(), Some(1));
}

#[test]
fn published_callback_is_callable_and_stable() {
    let mut slot: CallbackSlot<fn(bool)> = CallbackSlot::empty();
    set_refresh_callback(&mut slot, mark_called as fn(bool));
    set_refresh_callback(&mut slot, never_called as fn(bool));
    let cb = slot.callback().expect("a callback was published");
    cb(true);
    assert!(CALLED.load(Ordering::SeqCst));
}
