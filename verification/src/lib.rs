//! Shard-aware concurrency primitives for a single-threaded-per-core
//! execution engine.
//!
//! The engine schedules opaque, pollable tasks on independent shards (one
//! per CPU core, no cross-shard memory sharing) and notifies them through a
//! callback-based wake protocol. This crate holds the verified core of the
//! bridge to that engine: the shutdown `Gate`, the `PhasedBarrier` epoch
//! tracker, the shard-affine `Foreign` wrapper, the task-bridge state
//! machines, and the cross-shard result aggregation rules. The engine's own
//! scheduler, its C ABI, and the async plumbing around these primitives are
//! not part of the verified library; they interact with it through plain
//! values (shard ids, waker tokens, poll verdicts).

pub mod engine;
pub mod barrier;
pub mod bridge;
pub mod foreign;
pub mod gate;
pub mod logger;
pub mod preempt;
pub mod sharded;
pub mod submit;
pub mod wake;

pub use engine::Engine;
pub use engine::assert_runtime_is_running;
pub use engine::assert_runtime_is_not_running;
pub use engine::assert_runtime_not_started_more_than_once;

pub use barrier::{PhasedBarrier, Operation, AdvanceWaiter, DrainOutcome};
pub use bridge::{WaitState, EngineFuture, EnginePollStep, BridgedTask, TaskOutcome, Resolution, resolve_outcome, wake_and_detach};
pub use foreign::{Foreign, Disposal};
pub use gate::{Gate, GenericGateHolder, GateClosedError};
pub use logger::LogLevel;
pub use preempt::{YieldFuture, YieldPoll, yield_now, maybe_yield};
pub use sharded::{Sharded, ShardedStorage};
pub use submit::aggregate_shard_results;
pub use wake::{WakerToken, WakerLifecycle};
