//! Per-shard storage.
//!
//! One slot per shard, each initialized and released by its own shard. The
//! storage's safety rules — initialize an empty slot exactly once, read only
//! an initialized slot, release only an initialized slot, and give the
//! backing slice up only after every slot has been released — are the
//! contracts here.

use vstd::prelude::*;

use crate::engine::Engine;

verus! {

/// The per-shard slots. A `None` slot is uninitialized.
pub struct ShardedStorage<T> {
    shards: Vec<Option<T>>,
}

impl<T> View for ShardedStorage<T> {
    type V = Seq<Option<T>>;

    closed spec fn view(&self) -> Seq<Option<T>> {
        self.shards@
    }
}

impl<T> ShardedStorage<T> {
    /// One uninitialized slot per shard.
    pub fn new_uninitialized(count: usize) -> (s: ShardedStorage<T>)
        ensures
            s@.len() == count,
            forall|j: int| 0 <= j < count ==> s@[j] is None,
    {
        let mut shards: Vec<Option<T>> = Vec::new();
        let mut i: usize = 0;
        while i < count
            invariant
                i <= count,
                shards@.len() == i,
                forall|j: int| 0 <= j < i ==> shards@[j] is None,
            decreases count - i,
        {
            shards.push(None);
            i = i + 1;
        }
        ShardedStorage { shards }
    }

    /// Adopts one locally constructed value per shard; the vector must
    /// cover the shard topology exactly.
    pub fn new_from_locally_constructed(values: Vec<T>, engine: &Engine) -> (s: ShardedStorage<T>)
        requires
            engine.ready,
            engine.wf(),
            values@.len() == engine.shards,
        ensures
            s@.len() == values@.len(),
            forall|j: int| 0 <= j < values@.len() ==> s@[j] == Some(values@[j]),
    {
        let ghost orig = values@;
        let mut rest = values;
        let mut shards: Vec<Option<T>> = Vec::new();
        while rest.len() > 0
            invariant
                rest@ == orig.skip(shards@.len() as int),
                shards@.len() <= orig.len(),
                forall|j: int| 0 <= j < shards@.len() ==> shards@[j] == Some(orig[j]),
            decreases rest@.len(),
        {
            let ghost k = shards@.len() as int;
            proof {
                assert(rest@[0] == orig[k]);
            }
            let v = rest.remove(0);
            shards.push(Some(v));
            proof {
                assert(rest@ =~= orig.skip(k + 1));
            }
        }
        ShardedStorage { shards }
    }

    /// Number of slots.
    pub fn len(&self) -> (n: usize)
        ensures
            n == self@.len(),
    {
        self.shards.len()
    }

    /// Whether a shard's slot is initialized.
    pub fn is_initialized(&self, shard: usize) -> (r: bool)
        requires
            shard < self@.len(),
        ensures
            r == (self@[shard as int] is Some),
    {
        self.shards[shard].is_some()
    }

    /// Fills a shard's slot. The slot must be empty: each shard initializes
    /// its own slot exactly once.
    pub fn initialize(&mut self, shard: usize, v: T)
        requires
            shard < old(self)@.len(),
            old(self)@[shard as int] is None,
        ensures
            final(self)@ == old(self)@.update(shard as int, Some(v)),
    {
        let slot = &mut self.shards[shard];
        *slot = Some(v);
    }

    /// Reads a shard's slot, which must have been initialized.
    pub fn get(&self, shard: usize) -> (r: &T)
        requires
            shard < self@.len(),
            self@[shard as int] is Some,
        ensures
            Some(*r) == self@[shard as int],
    {
        match &self.shards[shard] {
            Some(v) => v,
            None => unreached(),
        }
    }

    /// Empties a shard's slot, handing the value back so the calling shard
    /// destroys it. The slot must have been initialized.
    pub fn release_local(&mut self, shard: usize) -> (v: T)
        requires
            shard < old(self)@.len(),
            old(self)@[shard as int] is Some,
        ensures
            final(self)@ == old(self)@.update(shard as int, None::<T>),
            Some(v) == old(self)@[shard as int],
    {
        let slot = &mut self.shards[shard];
        let taken = slot.take();
        match taken {
            Some(v) => v,
            None => unreached(),
        }
    }

    /// Gives the backing slice up. Every slot must have been released
    /// first, so that no value is lost.
    pub fn release_slice(&mut self)
        requires
            forall|j: int| 0 <= j < old(self)@.len() ==> old(self)@[j] is None,
        ensures
            final(self)@.len() == 0,
    {
        self.shards = Vec::new();
    }
}

/// A service with one instance per shard, backed by per-shard storage.
pub struct Sharded<T> {
    storage: ShardedStorage<T>,
}

impl<T> View for Sharded<T> {
    type V = Seq<Option<T>>;

    closed spec fn view(&self) -> Seq<Option<T>> {
        self.storage@
    }
}

impl<T> Sharded<T> {
    pub fn new(storage: ShardedStorage<T>) -> (s: Sharded<T>)
        ensures
            s@ == storage@,
    {
        Sharded { storage }
    }

    /// The per-shard storage backing the service.
    pub fn storage(&self) -> (r: &ShardedStorage<T>)
        ensures
            r@ == self@,
    {
        &self.storage
    }
}

} // verus!
