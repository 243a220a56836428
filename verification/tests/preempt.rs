use seastar::engine::Engine;
use seastar::preempt::{maybe_yield, yield_now, YieldPoll};
use seastar::wake::WakerToken;

#[test]
fn test_preempt_smoke_test() {
    // Outside the engine the preemption signal is never set.
    let engine = Engine::new(false, false, 1, 0, false);
    assert!(!engine.need_preempt());
    assert!(!engine.need_preempt());
    assert!(!engine.need_preempt());
}

#[test]
fn yield_now_yields_exactly_once() {
    let mut f = yield_now();
    let w = WakerToken { id: 1 };
    assert_eq!(f.poll(w), YieldPoll::Yielded(WakerToken { id: 1 }));
    assert_eq!(f.poll(w), YieldPoll::Ready);
    assert_eq!(f.poll(w), YieldPoll::Ready);
}

#[test]
fn maybe_yield_follows_preemption_signal() {
    let relaxed = Engine::new(true, true, 2, 0, false);
    let mut f = maybe_yield(&relaxed);
    let w = WakerToken { id: 2 };
    assert_eq!(f.poll(w), YieldPoll::Ready);

    let exhausted = Engine::new(true, true, 2, 0, true);
    let mut f = maybe_yield(&exhausted);
    assert_eq!(f.poll(w), YieldPoll::Yielded(w));
    assert_eq!(f.poll(w), YieldPoll::Ready);
}
