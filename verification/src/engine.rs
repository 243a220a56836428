//! The engine context: which shard is executing, whether the calling thread
//! is inside the engine's event loop, and whether the running task has
//! exhausted its scheduling quota.
//!
//! The real engine answers these queries through process-wide C ABI calls
//! that are only meaningful while its event loop is running. The verified
//! core instead threads the answers through an explicit capability value:
//! the unverified shell samples the engine once per decision point and hands
//! the snapshot to the library functions that depend on it.

use vstd::prelude::*;

verus! {

/// A snapshot of the engine's process- and thread-local state, as observed
/// at one decision point.
pub struct Engine {
    /// True iff the calling thread is currently executing inside the
    /// engine's event loop.
    pub ready: bool,
    /// True iff the engine has already been started in this process.
    pub started: bool,
    /// Total number of execution shards.
    pub shards: u32,
    /// The shard the calling thread is executing on. Meaningful only while
    /// `ready` holds.
    pub shard: u32,
    /// True iff the current task has exhausted its scheduling quota and
    /// should yield at the next opportunity.
    pub preempt: bool,
}

impl Engine {
    /// A shard id is always an index into the shard topology.
    pub open spec fn wf(&self) -> bool {
        self.shard < self.shards
    }

    pub fn new(ready: bool, started: bool, shards: u32, shard: u32, preempt: bool) -> (e: Engine)
        requires
            shard < shards,
        ensures
            e == (Engine { ready, started, shards, shard, preempt }),
    {
        Engine { ready, started, shards, shard, preempt }
    }

    /// True iff the calling thread is inside the engine's event loop.
    pub fn is_ready(&self) -> (r: bool)
        ensures
            r == self.ready,
    {
        self.ready
    }

    /// True iff the current task should yield at the next opportunity.
    pub fn need_preempt(&self) -> (r: bool)
        ensures
            r == self.preempt,
    {
        self.preempt
    }

    /// Total shard count. Meaningless outside the engine, so the caller
    /// must be inside its event loop.
    pub fn shard_count(&self) -> (r: u32)
        requires
            self.ready,
            self.wf(),
        ensures
            r == self.shards,
    {
        self.shards
    }

    /// The shard the calling thread is executing on; fixed for the lifetime
    /// of an execution context.
    pub fn this_shard(&self) -> (r: u32)
        requires
            self.ready,
            self.wf(),
        ensures
            r == self.shard,
            r < self.shards,
    {
        self.shard
    }
}

/// Guard for runtime-dependent operations. Calling one outside the engine
/// is a programming error that aborts execution, so the contract refuses
/// such a call outright.
pub fn assert_runtime_is_running(engine: &Engine)
    requires
        engine.ready,
{
}

/// Guard for operations that must run outside the engine (such as starting
/// it). Calling one from inside the event loop is a programming error that
/// aborts execution, so the contract refuses such a call outright.
pub fn assert_runtime_is_not_running(engine: &Engine)
    requires
        !engine.ready,
{
}

/// Records that the engine has been started. Starting it twice in one
/// process is a programming error that aborts execution, so the contract
/// refuses the second call outright.
pub fn assert_runtime_not_started_more_than_once(engine: &mut Engine)
    requires
        !old(engine).started,
    ensures
        *final(engine) == (Engine { started: true, ..*old(engine) }),
{
    engine.started = true;
}

} // verus!
