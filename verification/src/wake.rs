//! Wake protocol: continuation tokens and their reference-count discipline.
//!
//! The engine requests the re-polling of a suspended task by invoking a
//! refcounted continuation callback. The verified core never invokes wakers
//! itself: state machines store and hand out plain [`WakerToken`] values,
//! and the unverified shell maps each token to a real continuation and
//! invokes it. The refcount discipline the engine's callback quartet must
//! obey — every clone balanced by exactly one eventual dispose — is modeled
//! by [`WakerLifecycle`].

use vstd::prelude::*;

verus! {

/// A plain identifier standing for one continuation the embedder registered.
/// State machines in this crate store tokens and return them when a wake is
/// owed; the embedder invokes the continuation the token names.
#[derive(Clone, Copy, PartialEq, Eq, Debug, Structural)]
pub struct WakerToken {
    pub id: u64,
}

/// The reference count of one continuation as seen by the engine's callback
/// quartet. A continuation is created with one reference; `clone_ref` adds
/// one, `dispose` and `wake` each give one back, and `wake_by_ref` borrows
/// without consuming. The continuation's storage may be reclaimed exactly
/// when the count reaches zero.
pub struct WakerLifecycle {
    refs: usize,
}

impl WakerLifecycle {
    /// Outstanding references to the continuation.
    pub closed spec fn refs(&self) -> nat {
        self.refs as nat
    }

    /// A fresh continuation carries a single reference.
    pub fn new() -> (w: WakerLifecycle)
        ensures
            w.refs() == 1,
    {
        WakerLifecycle { refs: 1 }
    }

    /// The clone callback: one more reference, to be balanced by exactly
    /// one eventual `dispose` or `wake`.
    pub fn clone_ref(&mut self)
        requires
            old(self).refs() >= 1,
            old(self).refs() < usize::MAX,
        ensures
            final(self).refs() == old(self).refs() + 1,
    {
        self.refs = self.refs + 1;
    }

    /// The wake-by-value callback: requests a re-poll and consumes the
    /// caller's reference.
    pub fn wake(&mut self)
        requires
            old(self).refs() >= 1,
        ensures
            final(self).refs() == old(self).refs() - 1,
    {
        self.refs = self.refs - 1;
    }

    /// The wake-by-reference callback: requests a re-poll while the caller
    /// keeps its reference.
    pub fn wake_by_ref(&mut self)
        requires
            old(self).refs() >= 1,
        ensures
            final(self).refs() == old(self).refs(),
    {
    }

    /// The dispose callback: gives the caller's reference back without
    /// requesting a re-poll.
    pub fn dispose(&mut self)
        requires
            old(self).refs() >= 1,
        ensures
            final(self).refs() == old(self).refs() - 1,
    {
        self.refs = self.refs - 1;
    }

    /// True once every reference has been given back; only then may the
    /// continuation's storage be reclaimed.
    pub fn is_released(&self) -> (r: bool)
        ensures
            r == (self.refs() == 0),
    {
        self.refs == 0
    }
}

} // verus!
