use seastar::gate::Gate;
use seastar::wake::WakerToken;

#[test]
fn gate_counts_holders() {
    let mut g: Gate<u32> = Gate::new(7);
    assert!(!g.is_closed());
    assert_eq!(g.use_count(), 0);
    assert_eq!(*g.inner(), 7);

    let h1 = g.enter().unwrap();
    let h2 = g.enter().unwrap();
    assert_eq!(g.use_count(), 2);

    assert_eq!(g.leave(h1), None);
    assert_eq!(g.use_count(), 1);
    assert_eq!(g.leave(h2), None);
    assert_eq!(g.use_count(), 0);
}

#[test]
fn gate_close_with_no_holders_resolves_at_once() {
    let mut g: Gate<()> = Gate::new(());
    g.close();
    assert!(g.is_closed());
    assert!(g.poll_close(WakerToken { id: 1 }));
}

#[test]
fn no_enter_succeeds_after_close() {
    let mut g: Gate<()> = Gate::new(());
    let h = g.enter().unwrap();
    g.close();
    assert!(g.is_closed());
    let denied = g.enter();
    assert!(denied.is_err());
    assert_eq!(
        denied.unwrap_err().message(),
        "attempted to enter a closed gate"
    );
    // Still closed, and the denied attempt was not counted.
    assert!(g.is_closed());
    assert_eq!(g.use_count(), 1);
    assert!(g.poll_close(WakerToken { id: 2 }) == false);
    assert_eq!(g.leave(h), Some(WakerToken { id: 2 }));
}

#[test]
fn close_resolves_only_after_every_holder_left() {
    let mut g: Gate<u8> = Gate::new(0);
    let h1 = g.enter().unwrap();
    let h2 = g.enter().unwrap();
    let h3 = g.enter().unwrap();
    g.close();

    let closer = WakerToken { id: 9 };
    assert!(!g.poll_close(closer));

    // Holders released after close but before resolution count exactly once.
    assert_eq!(g.leave(h2), None);
    assert!(!g.poll_close(closer));
    assert_eq!(g.leave(h1), None);
    assert!(!g.poll_close(closer));

    // The last holder out hands back the parked close-waiter.
    assert_eq!(g.leave(h3), Some(closer));
    assert!(g.poll_close(closer));
}

#[test]
fn later_poll_overwrites_the_parked_waiter() {
    let mut g: Gate<()> = Gate::new(());
    let h = g.enter().unwrap();
    g.close();
    assert!(!g.poll_close(WakerToken { id: 1 }));
    assert!(!g.poll_close(WakerToken { id: 2 }));
    assert_eq!(g.leave(h), Some(WakerToken { id: 2 }));
}
