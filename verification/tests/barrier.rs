use seastar::barrier::PhasedBarrier;
use seastar::wake::WakerToken;

#[test]
fn operations_in_progress_counts_live_handles() {
    let mut b = PhasedBarrier::new();
    assert_eq!(b.operations_in_progress(), 0);

    let o1 = b.start();
    let o2 = b.start();
    let o3 = b.start();
    assert_eq!(b.operations_in_progress(), 3);

    let wakers = b.finish(o2);
    assert!(wakers.is_empty());
    assert_eq!(b.operations_in_progress(), 2);

    b.finish(o1);
    b.finish(o3);
    assert_eq!(b.operations_in_progress(), 0);
}

#[test]
fn advance_waits_for_operations_started_before_it() {
    let mut b = PhasedBarrier::new();
    let o1 = b.start();
    let o2 = b.start();

    let (waiter, wakers) = b.advance();
    assert!(wakers.is_empty());
    assert_eq!(b.operations_in_progress(), 0);

    let token = WakerToken { id: 5 };
    assert!(!b.poll_advance(&waiter, token));

    // An operation started after the advance does not block its waiter.
    let late = b.start();
    let wakers = b.finish(late);
    assert!(wakers.is_empty());
    assert!(!b.poll_advance(&waiter, token));

    // The waiter resolves only once both earlier handles are gone.
    let wakers = b.finish(o1);
    assert!(wakers.is_empty());
    assert!(!b.poll_advance(&waiter, token));

    let wakers = b.finish(o2);
    assert_eq!(wakers.len(), 1);
    assert_eq!(wakers[0], token);
    assert!(b.poll_advance(&waiter, token));
}

#[test]
fn advance_with_nothing_pending_resolves_at_once() {
    let mut b = PhasedBarrier::new();
    let (waiter, wakers) = b.advance();
    assert!(wakers.is_empty());
    assert!(b.poll_advance(&waiter, WakerToken { id: 1 }));
}

#[test]
fn stages_resolve_strictly_in_order() {
    let mut b = PhasedBarrier::new();
    let o0 = b.start();
    let (w0, _) = b.advance();
    let (w1, _) = b.advance();

    let t0 = WakerToken { id: 10 };
    let t1 = WakerToken { id: 11 };
    // The newer stage is empty, but it must not be reported finished while
    // the older stage still has a running operation.
    assert!(!b.poll_advance(&w1, t1));
    assert!(!b.poll_advance(&w0, t0));

    let wakers = b.finish(o0);
    assert_eq!(wakers, vec![t0, t1]);
    assert!(b.poll_advance(&w0, t0));
    assert!(b.poll_advance(&w1, t1));
}

#[test]
fn long_chain_tears_down_iteratively() {
    // One operation keeps the first stage alive while the chain grows very
    // long; finishing it reclaims the whole chain in one iterative walk.
    let mut b = PhasedBarrier::new();
    let op = b.start();
    let (first_waiter, _) = b.advance();
    let token = WakerToken { id: 1 };
    assert!(!b.poll_advance(&first_waiter, token));
    let mut last_waiter = None;
    for _ in 0..10_000 {
        let (w, wakers) = b.advance();
        assert!(wakers.is_empty());
        last_waiter = Some(w);
    }
    let last_waiter = last_waiter.unwrap();
    assert!(!b.poll_advance(&last_waiter, token));

    let wakers = b.finish(op);
    // The walk collects the waiters parked on the first and last stages.
    assert_eq!(wakers, vec![token, token]);
    assert!(b.poll_advance(&first_waiter, token));
    assert!(b.poll_advance(&last_waiter, token));
}

#[test]
fn budgeted_drain_can_stop_and_resume() {
    let mut b = PhasedBarrier::new();
    let op = b.start();
    for _ in 0..6 {
        let (_, wakers) = b.advance();
        assert!(wakers.is_empty());
    }
    // Deferred finish leaves the walk to explicit, budgeted runs.
    b.finish_deferred(op);

    let first = b.drain(2);
    assert!(!first.finished);
    assert!(first.wakers.is_empty());

    let second = b.drain(2);
    assert!(!second.finished);

    let third = b.drain(100);
    assert!(third.finished);
    assert!(third.wakers.is_empty());

    // A finished walk stays finished.
    let again = b.drain(100);
    assert!(again.finished);
    assert!(again.wakers.is_empty());
}
