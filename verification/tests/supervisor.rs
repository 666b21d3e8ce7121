use launcher::supervisor::HandleSlot;
use launcher::supervisor::ShutdownAction;

#[test]
fn shutdown_before_record_is_noop() {
    // A close event that arrives while the spawn is still in flight finds no
    // handle: nothing is killed and no error is raised.
    let mut slot: HandleSlot<u32> = HandleSlot::empty();
    assert!(!slot.is_recorded());
    assert_eq!(slot.shutdown(), ShutdownAction::NoOp);
    assert!(!slot.is_recorded());
}

#[test]
fn shutdown_after_record_kills_once() {
    // A close event after the child is recorded asks for exactly one kill; a
    // second close event finds the slot empty and is a no-op.
    let mut slot: HandleSlot<u32> = HandleSlot::empty();
    slot.record(7);
    assert!(slot.is_recorded());
    assert_eq!(slot.shutdown(), ShutdownAction::Kill(7));
    assert!(!slot.is_recorded());
    assert_eq!(slot.shutdown(), ShutdownAction::NoOp);
}

#[test]
fn shutdown_is_idempotent_from_any_start() {
    // However the first shutdown went, the second one never asks for a kill.
    let mut empty_slot: HandleSlot<u32> = HandleSlot::empty();
    let _ = empty_slot.shutdown();
    assert_eq!(empty_slot.shutdown(), ShutdownAction::NoOp);

    let mut full_slot: HandleSlot<u32> = HandleSlot::empty();
    full_slot.record(42);
    let _ = full_slot.shutdown();
    assert_eq!(full_slot.shutdown(), ShutdownAction::NoOp);
}

#[test]
fn record_stores_the_handle() {
    let mut slot: HandleSlot<u64> = HandleSlot::empty();
    slot.record(123456789);
    assert_eq!(slot.shutdown(), ShutdownAction::Kill(123456789));
}
