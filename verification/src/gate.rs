//! Shutdown-synchronizing gate.
//!
//! A gate admits operations while open: each successful `enter` hands out a
//! holder and raises the use count, and giving the holder back lowers it.
//! Closing is monotonic — a closed gate never reopens and no
//! further `enter` succeeds — and the closer waits, poll-driven, until the
//! use count reaches zero. A gate lives on a single shard, where at most
//! one task runs at a time, so no locking is involved: the close-waiter is a
//! single slot holding at most one continuation token, and the last holder
//! to leave receives that token so the embedder can wake the closer.

use vstd::prelude::*;

use crate::wake::WakerToken;

verus! {

/// The mathematical state of a gate: the number of outstanding holders,
/// the monotonic closed flag, and the parked close-waiter.
pub struct GateModel {
    pub use_count: nat,
    pub closed: bool,
    pub waiter: Option<WakerToken>,
}

impl GateModel {
    /// The waiter slot is populated only while closed and
    /// holders are still outstanding.
    pub open spec fn wf(&self) -> bool {
        self.waiter is Some ==> self.closed && self.use_count > 0
    }
}

/// One interaction with a gate, for reasoning about whole histories.
pub enum GateEvent {
    /// An admission attempt.
    Enter,
    /// A holder is given back.
    Leave,
    /// Closing is requested.
    Close,
    /// The closer polls for completion, offering its continuation token.
    PollClose(WakerToken),
}

/// An admission attempt: granted (and counted) only while open.
pub open spec fn gate_enter(s: GateModel) -> GateModel {
    if s.closed {
        s
    } else {
        GateModel { use_count: s.use_count + 1, ..s }
    }
}

/// A holder is given back: the count drops by one, and the last holder out
/// of a closed gate consumes the parked waiter.
pub open spec fn gate_leave(s: GateModel) -> GateModel {
    if s.use_count > 0 {
        GateModel {
            use_count: (s.use_count - 1) as nat,
            waiter: if s.closed && s.use_count == 1 {
                None
            } else {
                s.waiter
            },
            ..s
        }
    } else {
        s
    }
}

/// Closing sets the flag, which never reverts.
pub open spec fn gate_close(s: GateModel) -> GateModel {
    GateModel { closed: true, ..s }
}

/// A close poll (meaningful only once closing was requested): resolves
/// immediately at count zero, otherwise parks the caller's continuation
/// token (overwriting an earlier one).
pub open spec fn gate_poll_close(s: GateModel, w: WakerToken) -> GateModel {
    if s.use_count == 0 || !s.closed {
        s
    } else {
        GateModel { waiter: Some(w), ..s }
    }
}

pub open spec fn gate_step(s: GateModel, e: GateEvent) -> GateModel {
    match e {
        GateEvent::Enter => gate_enter(s),
        GateEvent::Leave => gate_leave(s),
        GateEvent::Close => gate_close(s),
        GateEvent::PollClose(w) => gate_poll_close(s, w),
    }
}

pub open spec fn gate_run(s: GateModel, es: Seq<GateEvent>) -> GateModel
    decreases es.len(),
{
    if es.len() == 0 {
        s
    } else {
        gate_run(gate_step(s, es.first()), es.drop_first())
    }
}

/// Number of admissions granted along a history (attempts against a closed
/// gate grant nothing).
pub open spec fn gate_grants(s: GateModel, es: Seq<GateEvent>) -> nat
    decreases es.len(),
{
    if es.len() == 0 {
        0
    } else {
        (if es.first() is Enter && !s.closed {
            1nat
        } else {
            0nat
        }) + gate_grants(gate_step(s, es.first()), es.drop_first())
    }
}

/// Number of holders given back along a history (a leave against an empty
/// gate counts nothing; holders are linear values, so it cannot occur).
pub open spec fn gate_releases(s: GateModel, es: Seq<GateEvent>) -> nat
    decreases es.len(),
{
    if es.len() == 0 {
        0
    } else {
        (if es.first() is Leave && s.use_count > 0 {
            1nat
        } else {
            0nat
        }) + gate_releases(gate_step(s, es.first()), es.drop_first())
    }
}

/// Every gate interaction preserves the waiter invariant: the slot is
/// populated only while closed with holders outstanding.
pub proof fn lemma_gate_step_preserves_wf(s: GateModel, e: GateEvent)
    requires
        s.wf(),
    ensures
        gate_step(s, e).wf(),
{
}

pub proof fn lemma_gate_run_preserves_wf(s: GateModel, es: Seq<GateEvent>)
    requires
        s.wf(),
    ensures
        gate_run(s, es).wf(),
    decreases es.len(),
{
    if es.len() > 0 {
        lemma_gate_step_preserves_wf(s, es.first());
        lemma_gate_run_preserves_wf(gate_step(s, es.first()), es.drop_first());
    }
}

/// Law: the closed flag is monotonic. Whatever sequence of admissions,
/// releases, closes and polls follows, a closed gate stays closed.
pub proof fn lemma_closed_stays_closed(s: GateModel, es: Seq<GateEvent>)
    requires
        s.closed,
    ensures
        gate_run(s, es).closed,
    decreases es.len(),
{
    if es.len() > 0 {
        lemma_closed_stays_closed(gate_step(s, es.first()), es.drop_first());
    }
}

/// Law: once closed, no later admission attempt is granted,
/// whatever else happens in between.
pub proof fn lemma_no_grants_after_close(s: GateModel, es: Seq<GateEvent>)
    requires
        s.closed,
    ensures
        gate_grants(s, es) == 0,
    decreases es.len(),
{
    if es.len() > 0 {
        lemma_no_grants_after_close(gate_step(s, es.first()), es.drop_first());
    }
}

/// Law: the use count is exact bookkeeping. After any history, the count
/// equals the starting count plus the admissions granted minus the holders
/// given back — each release is counted exactly once, whether it happens
/// before or after closing.
pub proof fn lemma_use_count_accounting(s: GateModel, es: Seq<GateEvent>)
    ensures
        gate_run(s, es).use_count + gate_releases(s, es) == s.use_count + gate_grants(s, es),
    decreases es.len(),
{
    if es.len() > 0 {
        lemma_use_count_accounting(gate_step(s, es.first()), es.drop_first());
    }
}

/// Law: the close wait resolves exactly when every granted admission has
/// been given back.
pub proof fn lemma_close_resolves_when_all_released(s: GateModel, es: Seq<GateEvent>)
    ensures
        (gate_run(s, es).use_count == 0) <==> (gate_releases(s, es) == s.use_count + gate_grants(
            s,
            es,
        )),
{
    lemma_use_count_accounting(s, es);
}

/// Proof of an admission granted while open; giving it back
/// lowers its gate's use count. Holders are linear: they cannot be cloned
/// or forged, so each is given back at most once.
#[derive(Debug)]
pub struct GenericGateHolder {
    granted: (),
}

/// The recoverable failure of entering a gate that was already closed.
#[derive(Debug, PartialEq, Eq, Structural)]
pub struct GateClosedError;

impl GateClosedError {
    /// A human-readable description of the failure.
    pub fn message(&self) -> (r: &'static str)
        ensures
            r@ == "attempted to enter a closed gate"@,
    {
        "attempted to enter a closed gate"
    }
}

/// A shutdown-synchronizing gate protecting an inner value.
pub struct Gate<T> {
    inner: T,
    use_count: usize,
    closed: bool,
    waker: Option<WakerToken>,
}

impl<T> View for Gate<T> {
    type V = GateModel;

    closed spec fn view(&self) -> GateModel {
        GateModel { use_count: self.use_count as nat, closed: self.closed, waiter: self.waker }
    }
}

impl<T> Gate<T> {
    /// The protected inner value.
    pub closed spec fn payload(&self) -> T {
        self.inner
    }

    /// A fresh gate: open, no holders, no parked waiter.
    pub fn new(inner: T) -> (g: Gate<T>)
        ensures
            g@ == (GateModel { use_count: 0, closed: false, waiter: None::<WakerToken> }),
            g.payload() == inner,
    {
        Gate { inner, use_count: 0, closed: false, waker: None }
    }

    /// Whether this gate has been closed.
    pub fn is_closed(&self) -> (r: bool)
        ensures
            r == self@.closed,
    {
        self.closed
    }

    /// The number of outstanding holders.
    pub fn use_count(&self) -> (r: usize)
        ensures
            r as nat == self@.use_count,
    {
        self.use_count
    }

    /// Read access to the protected value (what a holder dereferences to).
    pub fn inner(&self) -> (r: &T)
        ensures
            *r == self.payload(),
    {
        &self.inner
    }

    /// Raises the use count by one.
    pub fn add_ref(&mut self)
        requires
            old(self)@.use_count < usize::MAX,
        ensures
            final(self)@ == (GateModel { use_count: old(self)@.use_count + 1, ..old(self)@ }),
            final(self).payload() == old(self).payload(),
    {
        self.use_count = self.use_count + 1;
    }

    /// Lowers the use count by one. After closing, when this was the
    /// last holder, the close-waiter stored by `poll_close` is taken out and
    /// returned so the embedder can wake the closer; the closer must have
    /// polled by then, so the slot is populated.
    pub fn dec_ref(&mut self) -> (w: Option<WakerToken>)
        requires
            old(self)@.use_count > 0,
            old(self)@.closed && old(self)@.use_count == 1 ==> old(self)@.waiter is Some,
        ensures
            final(self)@ == gate_leave(old(self)@),
            final(self).payload() == old(self).payload(),
            w == if old(self)@.closed && old(self)@.use_count == 1 {
                old(self)@.waiter
            } else {
                None::<WakerToken>
            },
    {
        let new_count = self.use_count - 1;
        self.use_count = new_count;
        if self.closed && new_count == 0 {
            let w = self.waker;
            self.waker = None;
            w
        } else {
            None
        }
    }

    /// Tries to enter: fails with [`GateClosedError`] exactly when
    /// this gate was already closed, and otherwise grants a holder and raises
    /// the use count.
    pub fn enter(&mut self) -> (r: Result<GenericGateHolder, GateClosedError>)
        requires
            old(self)@.use_count < usize::MAX,
        ensures
            final(self)@ == gate_enter(old(self)@),
            final(self).payload() == old(self).payload(),
            r is Ok <==> !old(self)@.closed,
    {
        if !self.is_closed() {
            self.add_ref();
            Ok(GenericGateHolder { granted: () })
        } else {
            Err(GateClosedError)
        }
    }

    /// Like `enter`, for callers that reach this gate through shared
    /// ownership rather than a borrow; the admission rule is the same.
    pub fn enter_owned(&mut self) -> (r: Result<GenericGateHolder, GateClosedError>)
        requires
            old(self)@.use_count < usize::MAX,
        ensures
            final(self)@ == gate_enter(old(self)@),
            final(self).payload() == old(self).payload(),
            r is Ok <==> !old(self)@.closed,
    {
        self.enter()
    }

    /// Gives a holder back (what dropping a holder does). Consumes the
    /// holder, so no holder can be given back twice. Returns the
    /// close-waiter to wake if this was the last holder out of a closed
    /// gate.
    pub fn leave(&mut self, holder: GenericGateHolder) -> (w: Option<WakerToken>)
        requires
            old(self)@.use_count > 0,
            old(self)@.closed && old(self)@.use_count == 1 ==> old(self)@.waiter is Some,
        ensures
            final(self)@ == gate_leave(old(self)@),
            final(self).payload() == old(self).payload(),
            w == if old(self)@.closed && old(self)@.use_count == 1 {
                old(self)@.waiter
            } else {
                None::<WakerToken>
            },
    {
        let GenericGateHolder { granted: () } = holder;
        self.dec_ref()
    }

    /// Requests closing. Closing twice is a programming error that
    /// aborts execution, so the contract refuses the second call outright.
    /// The closer then polls with `poll_close` until every holder has left.
    pub fn close(&mut self)
        requires
            !old(self)@.closed,
        ensures
            final(self)@ == gate_close(old(self)@),
            final(self).payload() == old(self).payload(),
    {
        self.closed = true;
    }

    /// One poll of the close wait: resolves exactly when no holder is
    /// outstanding, and otherwise parks the caller's continuation token for
    /// the last holder to take on its way out.
    pub fn poll_close(&mut self, w: WakerToken) -> (ready: bool)
        requires
            old(self)@.closed,
        ensures
            final(self)@ == gate_poll_close(old(self)@, w),
            final(self).payload() == old(self).payload(),
            ready == (old(self)@.use_count == 0),
    {
        if self.use_count == 0 {
            true
        } else {
            self.waker = Some(w);
            false
        }
    }
}

} // verus!
