//! Shard-affine resource wrapper.
//!
//! A `Foreign<T>` remembers the shard its value was constructed on and
//! offers transparent read access. The value's destructor must run on that
//! shard of origin: tearing the wrapper down on the origin shard destroys
//! the value in place, while tearing it down anywhere else relocates the
//! value (it is moved, never copied) so the embedder can submit a
//! fire-and-forget destructor job back to the origin shard. Off-shard
//! destruction is therefore deferred, not skipped — a documented liveness
//! property, not an error.

use vstd::prelude::*;

use crate::engine::Engine;

verus! {

/// How a `Foreign<T>` is to be torn down, decided against the shard the
/// teardown happens on.
pub enum Disposal<T> {
    /// The teardown runs on the shard of origin: destroy the value in
    /// place, synchronously.
    Destroy(T),
    /// The teardown runs elsewhere: relocate the value and submit its
    /// destruction to the given shard (the shard of origin).
    Relocate(u32, T),
}

/// A value bound to the shard it was constructed on.
pub struct Foreign<T> {
    inner: T,
    origin_shard: u32,
}

impl<T> Foreign<T> {
    /// The wrapped value.
    pub closed spec fn value(&self) -> T {
        self.inner
    }

    /// The shard the value was constructed on.
    pub closed spec fn origin(&self) -> u32 {
        self.origin_shard
    }

    /// Wraps a value, recording the calling shard as its shard of origin.
    /// Only meaningful inside the engine.
    pub fn new(inner: T, engine: &Engine) -> (f: Foreign<T>)
        requires
            engine.ready,
            engine.wf(),
        ensures
            f.value() == inner,
            f.origin() == engine.shard,
    {
        let origin_shard = engine.this_shard();
        Foreign { inner, origin_shard }
    }

    /// Transparent read access to the wrapped value.
    pub fn get(&self) -> (r: &T)
        ensures
            *r == self.value(),
    {
        &self.inner
    }

    /// The recorded shard of origin.
    pub fn origin_shard(&self) -> (r: u32)
        ensures
            r == self.origin(),
    {
        self.origin_shard
    }

    /// The teardown decision (what dropping the wrapper does): on the shard
    /// of origin the value is destroyed here and now; on any other shard it
    /// is relocated so its destructor can be submitted to the shard of
    /// origin.
    pub fn dispose(self, engine: &Engine) -> (d: Disposal<T>)
        requires
            engine.ready,
            engine.wf(),
        ensures
            engine.shard == self.origin() ==> d == Disposal::Destroy(self.value()),
            engine.shard != self.origin() ==> d == Disposal::Relocate(self.origin(), self.value()),
    {
        let Foreign { inner, origin_shard } = self;
        if engine.this_shard() == origin_shard {
            Disposal::Destroy(inner)
        } else {
            Disposal::Relocate(origin_shard, inner)
        }
    }
}

} // verus!
