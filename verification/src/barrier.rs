//! Epoch/generation barrier for tracking in-flight work.
//!
//! A phased barrier groups operations into stages: every operation started
//! while a stage is current holds that stage alive, and `advance` swaps in a
//! fresh current stage while returning a waiter that resolves once the
//! outgoing stage — and, by the chain of links from older to newer stages,
//! every stage before it — has been fully drained and reclaimed.
//!
//! Stages are reclaimed strictly in order by an iterative walk (never by
//! recursion, so arbitrarily long chains tear down in constant stack space):
//! the walk advances a `dropped` watermark over the stage chain as long as
//! the stage at the watermark has no remaining operations, collecting the
//! continuation tokens parked on the stages it passes so the embedder can
//! wake the corresponding advance-waiters. The walk can also be run with a
//! step budget: when the engine signals that the task's quota is exhausted,
//! the embedder stops, yields, and resumes the same walk later.

use vstd::prelude::*;

use crate::wake::WakerToken;

verus! {

/// The mathematical state of one stage: how many operations started in it
/// are still running, and the advance-waiter parked on it, if any.
#[verifier::ext_equal]
pub struct StageModel {
    pub ops: nat,
    pub waiter: Option<WakerToken>,
}

/// The mathematical state of a barrier: the chain of stages ever created
/// (index = generation, the last one is current), and the reclamation
/// watermark — stages before `dropped` have been torn down.
#[verifier::ext_equal]
pub struct BarrierModel {
    pub stages: Seq<StageModel>,
    pub dropped: nat,
}

/// The generation index of the current stage.
pub open spec fn barrier_current(b: BarrierModel) -> int {
    b.stages.len() - 1
}

/// The operation count of stage `g` (zero for generations that do not
/// exist).
pub open spec fn stage_ops(b: BarrierModel, g: int) -> nat {
    if 0 <= g < b.stages.len() {
        b.stages[g].ops
    } else {
        0
    }
}

impl BarrierModel {
    /// There is always a current stage, the watermark never passes it, and
    /// every reclaimed stage was fully drained.
    pub open spec fn wf(&self) -> bool {
        &&& self.stages.len() >= 1
        &&& self.dropped < self.stages.len()
        &&& forall|j: int| 0 <= j < self.dropped ==> self.stages[j].ops == 0
    }
}

/// Where the reclamation walk starting at `from` stops: the first stage at
/// or after `from` that still has operations, or the current stage,
/// whichever comes first. Stages in `[from, drain_target)` are exactly the
/// ones the walk reclaims.
pub open spec fn drain_target(stages: Seq<StageModel>, from: nat) -> nat
    decreases stages.len() - from,
{
    if from + 1 >= stages.len() || stages[from as int].ops > 0 {
        from
    } else {
        drain_target(stages, from + 1)
    }
}

/// The continuation tokens parked on stages `[lo, hi)`, in stage order.
pub open spec fn waiters_in(stages: Seq<StageModel>, lo: int, hi: int) -> Seq<WakerToken>
    decreases hi - lo,
{
    if lo >= hi {
        Seq::empty()
    } else {
        match stages[lo].waiter {
            Some(w) => seq![w] + waiters_in(stages, lo + 1, hi),
            None => waiters_in(stages, lo + 1, hi),
        }
    }
}

/// The reclamation walk stops no earlier than it starts, never passes the
/// current stage, reclaims only drained stages, and stops only at the
/// current stage or at one that still has operations.
pub proof fn lemma_drain_target_props(stages: Seq<StageModel>, from: nat)
    requires
        from < stages.len(),
    ensures
        from <= drain_target(stages, from) < stages.len(),
        forall|j: int| from <= j < drain_target(stages, from) ==> stages[j].ops == 0,
        drain_target(stages, from) + 1 == stages.len() || stages[drain_target(
            stages,
            from,
        ) as int].ops > 0,
    decreases stages.len() - from,
{
    if !(from + 1 >= stages.len() || stages[from as int].ops > 0) {
        lemma_drain_target_props(stages, from + 1);
    }
}

/// Extending the scanned range by one drained or waiting stage appends that
/// stage's parked token, if any.
pub proof fn lemma_waiters_in_snoc(stages: Seq<StageModel>, lo: int, hi: int)
    requires
        lo <= hi < stages.len(),
    ensures
        waiters_in(stages, lo, hi + 1) == waiters_in(stages, lo, hi) + (match stages[hi].waiter {
            Some(w) => seq![w],
            None => Seq::<WakerToken>::empty(),
        }),
    decreases hi - lo,
{
    if lo >= hi {
        assert(waiters_in(stages, lo, hi) == Seq::<WakerToken>::empty());
        assert(waiters_in(stages, lo + 1, hi + 1) == Seq::<WakerToken>::empty());
        match stages[hi].waiter {
            Some(w) => {
                assert(waiters_in(stages, lo, hi + 1) == seq![w] + waiters_in(
                    stages,
                    lo + 1,
                    hi + 1,
                ));
                assert(waiters_in(stages, lo, hi + 1) =~= waiters_in(stages, lo, hi) + seq![w]);
            },
            None => {
                assert(waiters_in(stages, lo, hi + 1) == waiters_in(stages, lo + 1, hi + 1));
                assert(waiters_in(stages, lo, hi + 1) =~= waiters_in(stages, lo, hi)
                    + Seq::<WakerToken>::empty());
            },
        }
    } else {
        lemma_waiters_in_snoc(stages, lo + 1, hi);
        match stages[lo].waiter {
            Some(w) => {
                assert(waiters_in(stages, lo, hi + 1) =~= (seq![w] + waiters_in(stages, lo + 1, hi))
                    + (match stages[hi].waiter {
                    Some(v) => seq![v],
                    None => Seq::<WakerToken>::empty(),
                }));
            },
            None => {},
        }
    }
}

/// One interaction with a barrier, for reasoning about whole histories.
/// Registering an advance-waiter is not listed: it touches no operation
/// count and no watermark.
pub enum BarrierEvent {
    /// An operation starts in the current stage.
    Start,
    /// A fresh stage becomes current and the reclamation walk runs.
    Advance,
    /// An operation that started in the given generation finishes and the
    /// reclamation walk runs.
    Finish(int),
}

pub open spec fn barrier_step(b: BarrierModel, e: BarrierEvent) -> BarrierModel {
    match e {
        BarrierEvent::Start => BarrierModel {
            stages: b.stages.update(
                barrier_current(b),
                StageModel { ops: b.stages.last().ops + 1, ..b.stages.last() },
            ),
            ..b
        },
        BarrierEvent::Advance => ({
            let s1 = b.stages.push(StageModel { ops: 0, waiter: None });
            BarrierModel { stages: s1, dropped: drain_target(s1, b.dropped) }
        }),
        BarrierEvent::Finish(i) => {
            if 0 <= i < b.stages.len() && b.stages[i].ops > 0 {
                let s1 = b.stages.update(
                    i,
                    StageModel { ops: (b.stages[i].ops - 1) as nat, ..b.stages[i] },
                );
                BarrierModel { stages: s1, dropped: drain_target(s1, b.dropped) }
            } else {
                b
            }
        },
    }
}

pub open spec fn barrier_run(b: BarrierModel, es: Seq<BarrierEvent>) -> BarrierModel
    decreases es.len(),
{
    if es.len() == 0 {
        b
    } else {
        barrier_run(barrier_step(b, es.first()), es.drop_first())
    }
}

/// A history is valid when every finish names a generation that still has a
/// running operation. Operation handles are linear values, so an execution
/// can only produce valid histories.
pub open spec fn barrier_valid(b: BarrierModel, es: Seq<BarrierEvent>) -> bool
    decreases es.len(),
{
    if es.len() == 0 {
        true
    } else {
        (match es.first() {
            BarrierEvent::Finish(i) => 0 <= i < b.stages.len() && b.stages[i].ops > 0,
            _ => true,
        }) && barrier_valid(barrier_step(b, es.first()), es.drop_first())
    }
}

/// Number of operations started while generation `g` was current, along a
/// history.
pub open spec fn starts_on(b: BarrierModel, es: Seq<BarrierEvent>, g: int) -> nat
    decreases es.len(),
{
    if es.len() == 0 {
        0
    } else {
        (if es.first() is Start && barrier_current(b) == g {
            1nat
        } else {
            0nat
        }) + starts_on(barrier_step(b, es.first()), es.drop_first(), g)
    }
}

/// Number of operations of generation `g` finished along a history.
pub open spec fn finishes_on(b: BarrierModel, es: Seq<BarrierEvent>, g: int) -> nat
    decreases es.len(),
{
    if es.len() == 0 {
        0
    } else {
        (if es.first() matches BarrierEvent::Finish(i) && i == g {
            1nat
        } else {
            0nat
        }) + finishes_on(barrier_step(b, es.first()), es.drop_first(), g)
    }
}

/// Every barrier interaction preserves well-formedness.
pub proof fn lemma_step_preserves_wf(b: BarrierModel, e: BarrierEvent)
    requires
        b.wf(),
    ensures
        barrier_step(b, e).wf(),
{
    match e {
        BarrierEvent::Start => {},
        BarrierEvent::Advance => {
            let s1 = b.stages.push(StageModel { ops: 0, waiter: None });
            lemma_drain_target_props(s1, b.dropped);
        },
        BarrierEvent::Finish(i) => {
            if 0 <= i < b.stages.len() && b.stages[i].ops > 0 {
                let s1 = b.stages.update(
                    i,
                    StageModel { ops: (b.stages[i].ops - 1) as nat, ..b.stages[i] },
                );
                lemma_drain_target_props(s1, b.dropped);
            }
        },
    }
}

pub proof fn lemma_run_preserves_wf(b: BarrierModel, es: Seq<BarrierEvent>)
    requires
        b.wf(),
    ensures
        barrier_run(b, es).wf(),
    decreases es.len(),
{
    if es.len() > 0 {
        lemma_step_preserves_wf(b, es.first());
        lemma_run_preserves_wf(barrier_step(b, es.first()), es.drop_first());
    }
}

/// Law: each stage's operation count is exact bookkeeping. After any valid
/// history, the count of generation `g` equals what it started as, plus the
/// operations started while `g` was current, minus the ones of `g` that
/// finished. In particular the current stage counts exactly its live,
/// unfinished operation handles.
pub proof fn lemma_stage_ops_accounting(b: BarrierModel, es: Seq<BarrierEvent>, g: int)
    requires
        b.wf(),
        barrier_valid(b, es),
    ensures
        stage_ops(barrier_run(b, es), g) + finishes_on(b, es, g) == stage_ops(b, g) + starts_on(
            b,
            es,
            g,
        ),
    decreases es.len(),
{
    if es.len() > 0 {
        let b1 = barrier_step(b, es.first());
        lemma_step_preserves_wf(b, es.first());
        lemma_stage_ops_accounting(b1, es.drop_first(), g);
        match es.first() {
            BarrierEvent::Start => {},
            BarrierEvent::Advance => {
                assert(stage_ops(b1, g) == stage_ops(b, g));
            },
            BarrierEvent::Finish(i) => {},
        }
    }
}

/// Whether the waiter returned by an advance whose outgoing stage was
/// generation `k` has resolved: the walk has reclaimed that stage.
pub open spec fn advance_ready(b: BarrierModel, k: int) -> bool {
    k < b.dropped
}

/// Law: while any operation of generation `j` at or before `k` is still
/// running, the advance-waiter for outgoing stage `k` is not resolved —
/// stages are reclaimed strictly in order, so the waiter waits for its own
/// stage and every earlier one.
pub proof fn lemma_pending_op_blocks_advance(b: BarrierModel, k: int, j: int)
    requires
        b.wf(),
        0 <= j <= k,
        stage_ops(b, j) > 0,
    ensures
        !advance_ready(b, k),
{
}

/// Law: operations started after an advance land in newer stages and never
/// block that advance's waiter; neither starting one nor finishing one
/// moves the waiter backwards.
pub proof fn lemma_later_start_does_not_block(b: BarrierModel, k: int)
    requires
        b.wf(),
    ensures
        advance_ready(barrier_step(b, BarrierEvent::Start), k) == advance_ready(b, k),
{
}

/// Law: the walk never retreats — once an advance-waiter has resolved, it
/// stays resolved through any further interaction.
pub proof fn lemma_advance_ready_is_monotone(b: BarrierModel, e: BarrierEvent, k: int)
    requires
        b.wf(),
        advance_ready(b, k),
    ensures
        advance_ready(barrier_step(b, e), k),
{
    match e {
        BarrierEvent::Start => {},
        BarrierEvent::Advance => {
            let s1 = b.stages.push(StageModel { ops: 0, waiter: None });
            lemma_drain_target_props(s1, b.dropped);
        },
        BarrierEvent::Finish(i) => {
            if 0 <= i < b.stages.len() && b.stages[i].ops > 0 {
                let s1 = b.stages.update(
                    i,
                    StageModel { ops: (b.stages[i].ops - 1) as nat, ..b.stages[i] },
                );
                lemma_drain_target_props(s1, b.dropped);
            }
        },
    }
}

/// The walk passes every fully-drained prefix: if every generation up to
/// and including `k` has no running operations and `k` is not current, the
/// walk starting at or before `k` moves past `k`.
pub proof fn lemma_drain_passes_drained_prefix(stages: Seq<StageModel>, from: nat, k: int)
    requires
        from <= k,
        k + 1 < stages.len(),
        forall|j: int| 0 <= j <= k ==> stages[j].ops == 0,
    ensures
        drain_target(stages, from) > k,
    decreases k + 1 - from,
{
    if from < k {
        lemma_drain_passes_drained_prefix(stages, from + 1, k);
    } else {
        lemma_drain_target_props(stages, from + 1);
    }
}

/// Law: once every operation of generation `k` and of every earlier
/// generation has finished, a finish whose walk runs to completion resolves
/// the advance-waiter for outgoing stage `k`.
pub proof fn lemma_drained_stage_resolves(b: BarrierModel, k: int)
    requires
        b.wf(),
        0 <= k,
        k + 1 < b.stages.len(),
        forall|j: int| 0 <= j <= k ==> stage_ops(b, j) == 0,
    ensures
        advance_ready(BarrierModel { dropped: drain_target(b.stages, b.dropped), ..b }, k),
{
    assert forall|j: int| 0 <= j <= k implies b.stages[j].ops == 0 by {
        assert(stage_ops(b, j) == 0);
    }
    if b.dropped <= k {
        lemma_drain_passes_drained_prefix(b.stages, b.dropped, k);
    } else {
        lemma_drain_target_props(b.stages, b.dropped);
    }
}

/// One stage of the chain.
#[derive(Clone, Copy)]
struct Stage {
    ops: usize,
    waiter: Option<WakerToken>,
}

impl View for Stage {
    type V = StageModel;

    closed spec fn view(&self) -> StageModel {
        StageModel { ops: self.ops as nat, waiter: self.waiter }
    }
}

/// An epoch/generation barrier. All bookkeeping lives on one shard, where
/// at most one task runs at a time, so no locking is involved.
pub struct PhasedBarrier {
    stages: Vec<Stage>,
    dropped: usize,
}

impl View for PhasedBarrier {
    type V = BarrierModel;

    closed spec fn view(&self) -> BarrierModel {
        BarrierModel {
            stages: self.stages@.map_values(|s: Stage| s@),
            dropped: self.dropped as nat,
        }
    }
}

/// A handle representing one ongoing operation. Its existence keeps the
/// stage it started in alive; it is linear (neither clonable nor forgeable),
/// so each operation is finished at most once.
pub struct Operation {
    stage: usize,
}

impl Operation {
    /// The generation the operation started in.
    pub closed spec fn generation(&self) -> int {
        self.stage as int
    }

    pub fn generation_index(&self) -> (r: usize)
        ensures
            r as int == self.generation(),
    {
        self.stage
    }
}

/// The handle behind the future an `advance` returns: it names the outgoing
/// stage, and resolves once that stage has been reclaimed. It may be
/// discarded without ever being polled.
pub struct AdvanceWaiter {
    stage: usize,
}

impl AdvanceWaiter {
    /// The generation of the outgoing stage.
    pub closed spec fn generation(&self) -> int {
        self.stage as int
    }

    pub fn generation_index(&self) -> (r: usize)
        ensures
            r as int == self.generation(),
    {
        self.stage
    }
}

/// The result of one budgeted run of the reclamation walk.
pub struct DrainOutcome {
    /// Continuation tokens of the advance-waiters parked on the stages this
    /// run reclaimed; the embedder wakes each of them.
    pub wakers: Vec<WakerToken>,
    /// False when the step budget ran out before the walk reached a stage
    /// that must stay: the embedder should yield and run the walk again.
    pub finished: bool,
}

impl PhasedBarrier {
    /// A fresh barrier: one empty current stage, nothing reclaimed.
    pub fn new() -> (b: PhasedBarrier)
        ensures
            b@ == (BarrierModel {
                stages: seq![StageModel { ops: 0, waiter: None::<WakerToken> }],
                dropped: 0nat,
            }),
            b@.wf(),
    {
        let stages = vec![Stage { ops: 0, waiter: None }];
        let b = PhasedBarrier { stages, dropped: 0 };
        proof {
            assert(b@.stages =~= seq![StageModel { ops: 0, waiter: None::<WakerToken> }]);
        }
        b
    }

    /// Starts an operation in the current stage: cheap, non-blocking, and
    /// counted until the returned handle is passed to `finish`.
    pub fn start(&mut self) -> (op: Operation)
        requires
            old(self)@.wf(),
            old(self)@.stages.last().ops < usize::MAX,
        ensures
            final(self)@ == barrier_step(old(self)@, BarrierEvent::Start),
            final(self)@.wf(),
            op.generation() == barrier_current(old(self)@),
    {
        let idx = self.stages.len() - 1;
        let st = &mut self.stages[idx];
        proof {
            assert(old(self)@.stages[idx as int] == st@);
        }
        st.ops = st.ops + 1;
        proof {
            assert(self@.stages =~= barrier_step(old(self)@, BarrierEvent::Start).stages);
            lemma_step_preserves_wf(old(self)@, BarrierEvent::Start);
        }
        Operation { stage: idx }
    }

    /// The number of live, unfinished operation handles referencing the
    /// current stage.
    pub fn operations_in_progress(&self) -> (n: usize)
        requires
            self@.wf(),
        ensures
            n == stage_ops(self@, barrier_current(self@)),
    {
        let idx = self.stages.len() - 1;
        self.stages[idx].ops
    }

    /// Runs the reclamation walk until it reaches a stage that must stay or
    /// until it has reclaimed `budget` stages, whichever comes first.
    /// Returns the continuation tokens parked on the reclaimed stages (the
    /// embedder wakes them) and whether the walk is done; if it is not, the
    /// embedder yields to the scheduler and calls `drain` again.
    pub fn drain(&mut self, budget: usize) -> (r: DrainOutcome)
        requires
            old(self)@.wf(),
        ensures
            final(self)@.stages == old(self)@.stages,
            old(self)@.dropped <= final(self)@.dropped,
            final(self)@.dropped <= drain_target(old(self)@.stages, old(self)@.dropped),
            final(self)@.dropped - old(self)@.dropped <= budget,
            r.finished == (final(self)@.dropped == drain_target(
                old(self)@.stages,
                old(self)@.dropped,
            )),
            !r.finished ==> final(self)@.dropped == old(self)@.dropped + budget,
            r.wakers@ == waiters_in(
                old(self)@.stages,
                old(self)@.dropped as int,
                final(self)@.dropped as int,
            ),
            final(self)@.wf(),
    {
        let ghost s0 = self@;
        let mut wakers: Vec<WakerToken> = Vec::new();
        let mut steps: usize = 0;
        proof {
            lemma_drain_target_props(s0.stages, s0.dropped);
        }
        while steps < budget && self.dropped < self.stages.len() - 1 && self.stages[self.dropped].ops
            == 0
            invariant
                self@.wf(),
                self@.stages == s0.stages,
                s0.dropped + steps == self@.dropped,
                steps <= budget,
                self@.dropped <= drain_target(s0.stages, s0.dropped),
                drain_target(s0.stages, self@.dropped) == drain_target(s0.stages, s0.dropped),
                wakers@ == waiters_in(s0.stages, s0.dropped as int, self@.dropped as int),
            decreases budget - steps,
        {
            let d = self.dropped;
            proof {
                lemma_waiters_in_snoc(s0.stages, s0.dropped as int, d as int);
                assert(s0.stages[d as int] == self.stages@[d as int]@);
            }
            match self.stages[d].waiter {
                Some(w) => wakers.push(w),
                None => {},
            }
            self.dropped = d + 1;
            steps = steps + 1;
            proof {
                assert(drain_target(s0.stages, d as nat) == drain_target(s0.stages, (d + 1) as nat));
                lemma_drain_target_props(s0.stages, (d + 1) as nat);
                assert(wakers@ =~= waiters_in(s0.stages, s0.dropped as int, self@.dropped as int));
            }
        }
        let d = self.dropped;
        let finished = d >= self.stages.len() - 1 || self.stages[d].ops > 0;
        proof {
            assert(s0.stages[d as int] == self.stages@[d as int]@);
            if finished {
                assert(drain_target(s0.stages, d as nat) == d as nat);
            } else {
                lemma_drain_target_props(s0.stages, (d + 1) as nat);
                assert(drain_target(s0.stages, d as nat) == drain_target(s0.stages, (d + 1) as nat));
            }
        }
        DrainOutcome { wakers, finished }
    }

    /// Runs the reclamation walk to completion (it reclaims at most the
    /// whole chain, so the chain's length is always budget enough).
    fn drain_to_target(&mut self) -> (wakers: Vec<WakerToken>)
        requires
            old(self)@.wf(),
        ensures
            final(self)@.stages == old(self)@.stages,
            final(self)@.dropped == drain_target(old(self)@.stages, old(self)@.dropped),
            wakers@ == waiters_in(
                old(self)@.stages,
                old(self)@.dropped as int,
                final(self)@.dropped as int,
            ),
            final(self)@.wf(),
    {
        let budget = self.stages.len();
        let r = self.drain(budget);
        proof {
            lemma_drain_target_props(old(self)@.stages, old(self)@.dropped);
        }
        r.wakers
    }

    /// Swaps in a fresh, empty current stage. The outgoing stage is linked
    /// before the new one, so it and every older stage must drain before the
    /// returned waiter resolves. Reclaims whatever the swap makes
    /// reclaimable and returns, besides the waiter for the outgoing stage,
    /// the continuation tokens of advance-waiters whose stages went away.
    pub fn advance(&mut self) -> (r: (AdvanceWaiter, Vec<WakerToken>))
        requires
            old(self)@.wf(),
            old(self)@.stages.len() < usize::MAX,
        ensures
            final(self)@ == barrier_step(old(self)@, BarrierEvent::Advance),
            final(self)@.wf(),
            r.0.generation() == barrier_current(old(self)@),
            r.1@ == waiters_in(
                barrier_step(old(self)@, BarrierEvent::Advance).stages,
                old(self)@.dropped as int,
                final(self)@.dropped as int,
            ),
    {
        let outgoing = self.stages.len() - 1;
        self.stages.push(Stage { ops: 0, waiter: None });
        proof {
            assert(self@.stages =~= old(self)@.stages.push(
                StageModel { ops: 0, waiter: None::<WakerToken> },
            ));
        }
        let wakers = self.drain_to_target();
        proof {
            lemma_step_preserves_wf(old(self)@, BarrierEvent::Advance);
        }
        (AdvanceWaiter { stage: outgoing }, wakers)
    }

    /// Finishes an operation (what dropping its handle does): the count of
    /// the stage it started in goes down by one, and the reclamation walk
    /// runs to completion. Returns the continuation tokens of the
    /// advance-waiters whose stages the walk reclaimed; the embedder wakes
    /// them.
    pub fn finish(&mut self, op: Operation) -> (wakers: Vec<WakerToken>)
        requires
            old(self)@.wf(),
            0 <= op.generation() < old(self)@.stages.len(),
            stage_ops(old(self)@, op.generation()) > 0,
        ensures
            final(self)@ == barrier_step(old(self)@, BarrierEvent::Finish(op.generation())),
            final(self)@.wf(),
            wakers@ == waiters_in(
                final(self)@.stages,
                old(self)@.dropped as int,
                final(self)@.dropped as int,
            ),
    {
        let Operation { stage: idx } = op;
        let st = &mut self.stages[idx];
        proof {
            assert(old(self)@.stages[idx as int] == st@);
        }
        st.ops = st.ops - 1;
        proof {
            assert(self@.stages =~= barrier_step(
                old(self)@,
                BarrierEvent::Finish(idx as int),
            ).stages);
        }
        let wakers = self.drain_to_target();
        proof {
            lemma_step_preserves_wf(old(self)@, BarrierEvent::Finish(idx as int));
        }
        wakers
    }

    /// Finishes an operation without running the reclamation walk, for the
    /// amortized teardown path: the embedder follows up with budgeted
    /// `drain` calls, yielding in between, until one reports it finished.
    pub fn finish_deferred(&mut self, op: Operation)
        requires
            old(self)@.wf(),
            0 <= op.generation() < old(self)@.stages.len(),
            stage_ops(old(self)@, op.generation()) > 0,
        ensures
            final(self)@.dropped == old(self)@.dropped,
            final(self)@.stages == old(self)@.stages.update(
                op.generation(),
                (StageModel {
                    ops: (old(self)@.stages[op.generation()].ops - 1) as nat,
                    ..old(self)@.stages[op.generation()]
                }),
            ),
            final(self)@.wf(),
    {
        let Operation { stage: idx } = op;
        let st = &mut self.stages[idx];
        proof {
            assert(old(self)@.stages[idx as int] == st@);
        }
        st.ops = st.ops - 1;
        proof {
            assert(self@.stages =~= old(self)@.stages.update(
                idx as int,
                (StageModel {
                    ops: (old(self)@.stages[idx as int].ops - 1) as nat,
                    ..old(self)@.stages[idx as int]
                }),
            ));
        }
    }

    /// One poll of an advance-waiter: resolved exactly when the walk has
    /// reclaimed the outgoing stage; otherwise the caller's continuation
    /// token is parked on that stage (overwriting an earlier one) for the
    /// walk to collect when the stage goes away.
    pub fn poll_advance(&mut self, w: &AdvanceWaiter, waker: WakerToken) -> (ready: bool)
        requires
            old(self)@.wf(),
            0 <= w.generation() < old(self)@.stages.len() - 1,
        ensures
            ready == advance_ready(old(self)@, w.generation()),
            ready ==> final(self)@ == old(self)@,
            !ready ==> final(self)@ == (BarrierModel {
                stages: old(self)@.stages.update(
                    w.generation(),
                    (StageModel {
                        waiter: Some(waker),
                        ..old(self)@.stages[w.generation()]
                    }),
                ),
                ..old(self)@
            }),
            final(self)@.wf(),
    {
        let idx = w.stage;
        if idx < self.dropped {
            true
        } else {
            let st = &mut self.stages[idx];
            proof {
                assert(old(self)@.stages[idx as int] == st@);
            }
            st.waiter = Some(waker);
            proof {
                assert(self@.stages =~= old(self)@.stages.update(
                    idx as int,
                    (StageModel { waiter: Some(waker), ..old(self)@.stages[idx as int] }),
                ));
            }
            false
        }
    }
}

} // verus!
