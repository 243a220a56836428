use seastar::bridge::{
    resolve_outcome, wake_and_detach, BridgedTask, EngineFuture, EnginePollStep, Resolution,
    TaskOutcome, WaitState,
};
use seastar::wake::{WakerLifecycle, WakerToken};

#[test]
fn engine_future_attaches_then_overwrites() {
    let mut f = EngineFuture::new();
    let w1 = WakerToken { id: 1 };
    let w2 = WakerToken { id: 2 };

    // First pending poll creates and attaches the wait state.
    assert_eq!(f.on_poll(false, w1), EnginePollStep::AttachWaitState);
    // A later pending poll only overwrites the stored token.
    assert_eq!(f.on_poll(false, w2), EnginePollStep::StoreWaker);

    // Completion consumes the wait state and yields the latest token.
    assert_eq!(f.complete_and_take_waker(), Some(w2));

    // The re-poll after the wake finds the task finished.
    assert_eq!(f.on_poll(true, w1), EnginePollStep::Complete);
}

#[test]
fn wait_state_is_consumed_with_its_token() {
    let mut ws = WaitState::new(WakerToken { id: 3 });
    ws.store_waker(WakerToken { id: 4 });
    assert_eq!(wake_and_detach(ws), Some(WakerToken { id: 4 }));
}

#[test]
fn bridged_task_reports_scheduler_codes() {
    let mut t = BridgedTask::new();
    assert_eq!(t.on_poll(false), 0);
    let mut t2 = BridgedTask::new();
    assert_eq!(t2.on_poll(true), 1);
}

#[test]
fn completed_value_returns_unchanged() {
    // Submitting to one's own shard (or any shard) hands the computation's
    // result back untouched.
    match resolve_outcome(TaskOutcome::Completed(42)) {
        Resolution::Return(v) => assert_eq!(v, 42),
        Resolution::Repanic => panic!("a completed task must not re-raise"),
    }
}

#[test]
fn captured_panic_is_reraised_not_defaulted() {
    match resolve_outcome(TaskOutcome::<i32>::Panicked) {
        Resolution::Return(_) => panic!("a captured failure must not become a value"),
        Resolution::Repanic => {}
    }
}

#[test]
fn waker_references_balance_out() {
    let mut w = WakerLifecycle::new();
    assert!(!w.is_released());
    w.clone_ref();
    w.clone_ref();
    w.wake_by_ref();
    w.wake();
    w.dispose();
    assert!(!w.is_released());
    w.dispose();
    assert!(w.is_released());
}
