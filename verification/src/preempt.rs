//! Cooperative yielding.
//!
//! A long-running task consults the engine's preemption signal and, when its
//! scheduling quota is exhausted, yields: it reports itself pending while
//! immediately requesting its own re-poll, so the scheduler can run other
//! tasks before it resumes.

use vstd::prelude::*;

use crate::engine::Engine;
use crate::wake::WakerToken;

verus! {

/// A one-shot yield point: pending exactly once if yielding is called for,
/// then ready.
#[derive(Debug)]
pub struct YieldFuture {
    need_yield: bool,
}

/// What one poll of a [`YieldFuture`] asks of the embedder.
#[derive(PartialEq, Eq, Structural, Debug)]
pub enum YieldPoll {
    /// Report pending, and invoke the given continuation immediately (the
    /// task only steps aside; it is runnable again at once).
    Yielded(WakerToken),
    /// The yield point has passed; resolve.
    Ready,
}

impl YieldFuture {
    /// Whether the next poll will yield.
    pub closed spec fn will_yield(&self) -> bool {
        self.need_yield
    }

    /// One poll: yields exactly once if yielding was called for, handing
    /// back the caller's continuation token to invoke right away, and
    /// resolves on any later poll.
    pub fn poll(&mut self, w: WakerToken) -> (r: YieldPoll)
        ensures
            old(self).will_yield() ==> r == YieldPoll::Yielded(w) && !final(self).will_yield(),
            !old(self).will_yield() ==> r == YieldPoll::Ready && !final(self).will_yield(),
    {
        if self.need_yield {
            self.need_yield = false;
            YieldPoll::Yielded(w)
        } else {
            YieldPoll::Ready
        }
    }
}

/// A yield point that always yields once.
pub fn yield_now() -> (f: YieldFuture)
    ensures
        f.will_yield(),
{
    YieldFuture { need_yield: true }
}

/// A yield point that yields exactly when the engine's preemption signal is
/// set — when the current task has exhausted its scheduling quota.
pub fn maybe_yield(engine: &Engine) -> (f: YieldFuture)
    ensures
        f.will_yield() == engine.preempt,
{
    YieldFuture { need_yield: engine.need_preempt() }
}

} // verus!
