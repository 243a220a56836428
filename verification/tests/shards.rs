use seastar::engine::{
    assert_runtime_is_not_running, assert_runtime_is_running,
    assert_runtime_not_started_more_than_once, Engine,
};
use seastar::foreign::{Disposal, Foreign};
use seastar::logger::LogLevel;
use seastar::sharded::{Sharded, ShardedStorage};
use seastar::submit::aggregate_shard_results;

fn on_shard(shard: u32) -> Engine {
    Engine::new(true, true, 4, shard, false)
}

#[test]
fn engine_context_answers_queries() {
    let e = on_shard(2);
    assert!(e.is_ready());
    assert_eq!(e.shard_count(), 4);
    assert_eq!(e.this_shard(), 2);
    assert_runtime_is_running(&e);

    let mut outside = Engine::new(false, false, 1, 0, false);
    assert!(!outside.is_ready());
    assert_runtime_is_not_running(&outside);
    assert_runtime_not_started_more_than_once(&mut outside);
    assert!(outside.started);
}

#[test]
fn foreign_dropped_on_origin_is_destroyed_in_place() {
    let origin = on_shard(1);
    let f = Foreign::new(String::from("resource"), &origin);
    assert_eq!(f.origin_shard(), 1);
    assert_eq!(f.get().as_str(), "resource");
    match f.dispose(&origin) {
        Disposal::Destroy(v) => assert_eq!(v, "resource"),
        Disposal::Relocate(..) => panic!("an on-shard teardown must be synchronous"),
    }
}

#[test]
fn foreign_dropped_elsewhere_is_relocated_to_origin() {
    let origin = on_shard(1);
    let elsewhere = on_shard(3);
    let f = Foreign::new(String::from("resource"), &origin);
    match f.dispose(&elsewhere) {
        Disposal::Destroy(_) => panic!("an off-shard teardown must be deferred"),
        Disposal::Relocate(shard, v) => {
            assert_eq!(shard, 1);
            assert_eq!(v, "resource");
        }
    }
}

#[test]
fn broadcast_returns_every_value_in_shard_order() {
    let results: Vec<Result<u32, String>> = vec![Ok(10), Ok(11), Ok(12), Ok(13)];
    assert_eq!(aggregate_shard_results(results), Ok(vec![10, 11, 12, 13]));

    let none: Vec<Result<u32, String>> = Vec::new();
    assert_eq!(aggregate_shard_results(none), Ok(Vec::new()));
}

#[test]
fn broadcast_returns_the_first_failure_after_draining() {
    // All four shards ran to completion (the outcomes exist for every
    // shard); the aggregate settles on the failing shard's error.
    let results: Vec<Result<u32, String>> =
        vec![Ok(10), Ok(11), Err(String::from("shard failure")), Ok(13)];
    assert_eq!(
        aggregate_shard_results(results),
        Err(String::from("shard failure"))
    );

    // With several failures, the first in shard order wins.
    let results: Vec<Result<u32, String>> = vec![
        Ok(10),
        Err(String::from("earlier")),
        Err(String::from("later")),
        Ok(13),
    ];
    assert_eq!(aggregate_shard_results(results), Err(String::from("earlier")));
}

#[test]
fn sharded_storage_slots_follow_their_rules() {
    let mut s: ShardedStorage<String> = ShardedStorage::new_uninitialized(4);
    assert_eq!(s.len(), 4);
    assert!(!s.is_initialized(0));

    s.initialize(0, String::from("a"));
    s.initialize(2, String::from("c"));
    assert!(s.is_initialized(0));
    assert!(!s.is_initialized(1));
    assert_eq!(s.get(2).as_str(), "c");

    assert_eq!(s.release_local(0), "a");
    assert_eq!(s.release_local(2), "c");
    assert!(!s.is_initialized(0));

    s.release_slice();
    assert_eq!(s.len(), 0);
}

#[test]
fn sharded_storage_adopts_locally_constructed_values() {
    let e = on_shard(0);
    let s = ShardedStorage::new_from_locally_constructed(vec![1u64, 2, 3, 4], &e);
    assert_eq!(s.len(), 4);
    assert_eq!(*s.get(0), 1);
    assert_eq!(*s.get(3), 4);

    let sharded = Sharded::new(s);
    assert_eq!(sharded.storage().len(), 4);
}

#[test]
fn log_levels_cross_the_boundary_in_declaration_order() {
    assert_eq!(LogLevel::Error.as_u32(), 0);
    assert_eq!(LogLevel::Warn.as_u32(), 1);
    assert_eq!(LogLevel::Info.as_u32(), 2);
    assert_eq!(LogLevel::Debug.as_u32(), 3);
    assert_eq!(LogLevel::Trace.as_u32(), 4);
}
