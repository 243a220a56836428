//! Task bridge: the two poll protocols at the engine boundary.
//!
//! One direction adapts an async computation into a poll-once unit the
//! engine's scheduler drives ([`BridgedTask`]): each poll reports a return
//! code, and on completion the boxed computation is destroyed exactly once.
//! A computation that fails is captured at this boundary as a
//! [`TaskOutcome`] — a failure must never unwind into the engine's stack
//! frames — and re-raised where the submitter awaits ([`resolve_outcome`]).
//!
//! The other direction awaits a task owned by the engine ([`EngineFuture`]):
//! the first poll that comes back pending creates a wait state and attaches
//! it to the engine-side task object; later pending polls overwrite the
//! stored continuation token; the engine's completion notification consumes
//! the wait state and yields the stored token exactly once.

use vstd::prelude::*;

use crate::wake::WakerToken;

verus! {

/// The shared cell bridging a suspended task's continuation to the engine's
/// completion notification. It holds at most one pending token and is
/// consumed — exactly once — by [`wake_and_detach`].
pub struct WaitState {
    waker: Option<WakerToken>,
}

impl WaitState {
    /// The pending continuation token, if one is stored.
    pub closed spec fn waker(&self) -> Option<WakerToken> {
        self.waker
    }

    /// A fresh wait state created on the first pending poll, holding that
    /// poll's continuation token.
    pub fn new(w: WakerToken) -> (ws: WaitState)
        ensures
            ws.waker() == Some(w),
    {
        WaitState { waker: Some(w) }
    }

    /// A later pending poll overwrites the stored token.
    pub fn store_waker(&mut self, w: WakerToken)
        ensures
            final(self).waker() == Some(w),
    {
        self.waker = Some(w);
    }
}

/// The engine's completion notification: consumes the wait state (it cannot
/// be notified twice) and yields the stored continuation token, which the
/// embedder invokes exactly once.
pub fn wake_and_detach(ws: WaitState) -> (r: Option<WakerToken>)
    ensures
        r == ws.waker(),
{
    let WaitState { waker } = ws;
    waker
}

/// What one poll of an [`EngineFuture`] asks of the embedder.
#[derive(PartialEq, Eq, Structural, Debug)]
pub enum EnginePollStep {
    /// The engine-side task finished; its output now fills the output slot
    /// (which must be treated as uninitialized until this step).
    Complete,
    /// First pending poll: a wait state was created — hand it to the
    /// engine-side task object.
    AttachWaitState,
    /// Later pending poll: the already-attached wait state now stores the
    /// new continuation token.
    StoreWaker,
}

/// The await side of a task owned by the engine. The wait state is shared
/// between this future and the engine-side task object; both live on one
/// shard, where at most one task runs at a time, so the bridge tracks the
/// cell's contents directly.
pub struct EngineFuture {
    attached: bool,
    waiter: Option<WakerToken>,
    done: bool,
}

impl EngineFuture {
    /// Whether a wait state has been handed to the engine-side task.
    pub closed spec fn attached(&self) -> bool {
        self.attached
    }

    /// The continuation token currently stored in the wait state.
    pub closed spec fn waiter(&self) -> Option<WakerToken> {
        self.waiter
    }

    /// Whether the engine-side task has completed.
    pub closed spec fn done(&self) -> bool {
        self.done
    }

    pub fn new() -> (f: EngineFuture)
        ensures
            !f.attached(),
            f.waiter() is None,
            !f.done(),
    {
        EngineFuture { attached: false, waiter: None, done: false }
    }

    /// One poll, given the engine-side task's verdict. Only one poll is in
    /// flight at a time and none after completion (the scheduler enforces
    /// both). A pending verdict attaches a wait state on first occurrence
    /// and overwrites its token afterwards; either way the engine now holds
    /// the caller's continuation.
    pub fn on_poll(&mut self, task_ready: bool, w: WakerToken) -> (step: EnginePollStep)
        requires
            !old(self).done(),
        ensures
            final(self).done() == task_ready,
            task_ready ==> step == EnginePollStep::Complete && final(self).attached() == old(
                self,
            ).attached() && final(self).waiter() == old(self).waiter(),
            !task_ready ==> final(self).attached() && final(self).waiter() == Some(w) && step == (
            if old(self).attached() {
                EnginePollStep::StoreWaker
            } else {
                EnginePollStep::AttachWaitState
            }),
    {
        if task_ready {
            self.done = true;
            EnginePollStep::Complete
        } else {
            self.waiter = Some(w);
            if self.attached {
                EnginePollStep::StoreWaker
            } else {
                self.attached = true;
                EnginePollStep::AttachWaitState
            }
        }
    }

    /// The engine-side completion notification: consumes the attached wait
    /// state (it cannot fire twice) and yields the stored continuation token
    /// for the embedder to invoke exactly once.
    pub fn complete_and_take_waker(&mut self) -> (r: Option<WakerToken>)
        requires
            old(self).attached(),
        ensures
            !final(self).attached(),
            final(self).waiter() is None,
            final(self).done() == old(self).done(),
            r == old(self).waiter(),
    {
        self.attached = false;
        self.waiter.take()
    }
}

/// A computation handed to the engine's scheduler, polled through a fixed
/// return-code contract until it completes; the boxed computation is
/// destroyed exactly once, at completion.
pub struct BridgedTask {
    completed: bool,
}

impl BridgedTask {
    /// Whether the task has completed (and its computation been destroyed).
    pub closed spec fn completed(&self) -> bool {
        self.completed
    }

    pub fn new() -> (t: BridgedTask)
        ensures
            !t.completed(),
    {
        BridgedTask { completed: false }
    }

    /// One poll by the scheduler, given the wrapped computation's verdict.
    /// The scheduler never polls a completed task (it owns the task until
    /// the completion code is returned, and destroys it then), so the
    /// contract refuses such a poll. Returns the boundary's return code:
    /// one when complete, zero when pending.
    pub fn on_poll(&mut self, inner_ready: bool) -> (code: i32)
        requires
            !old(self).completed(),
        ensures
            final(self).completed() == inner_ready,
            code == if inner_ready {
                1int
            } else {
                0int
            },
    {
        if inner_ready {
            self.completed = true;
            1
        } else {
            0
        }
    }
}

/// How a submitted computation ended: with a value, or captured at the task
/// boundary after failing (a failure must not unwind into the engine).
pub enum TaskOutcome<T> {
    Completed(T),
    Panicked,
}

/// What the awaiting submitter does with a delivered outcome.
pub enum Resolution<T> {
    /// The computation's own result, returned unchanged.
    Return(T),
    /// The captured failure is re-raised at the await point, preserving the
    /// illusion of a local call.
    Repanic,
}

/// The await point's decision: a completed computation's value is returned
/// unchanged; a captured failure is re-raised — never swallowed, never
/// replaced by a default.
pub fn resolve_outcome<T>(outcome: TaskOutcome<T>) -> (r: Resolution<T>)
    ensures
        r == (match outcome {
            TaskOutcome::Completed(v) => Resolution::Return(v),
            TaskOutcome::Panicked => Resolution::<T>::Repanic,
        }),
{
    match outcome {
        TaskOutcome::Completed(v) => Resolution::Return(v),
        TaskOutcome::Panicked => Resolution::Repanic,
    }
}

} // verus!
