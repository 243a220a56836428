//! Cross-shard submission: the aggregation rule for broadcasting one
//! computation to every shard.
//!
//! A broadcast submits the same factory to shards `0, 1, …` in order and
//! awaits every submission — even after one has failed, the rest are
//! drained, so no cross-shard operation outlives the aggregate call. The
//! verified rule here takes the fully drained outcomes, in shard order, and
//! settles the aggregate: all values when every shard succeeded, otherwise
//! the first failure in shard order (later failures are dropped, a decision
//! the drain rule makes explicit).

use vstd::prelude::*;

verus! {

/// The index of the first failed outcome, or the length when every outcome
/// succeeded.
pub open spec fn first_err_index<R, E>(s: Seq<Result<R, E>>) -> int
    decreases s.len(),
{
    if s.len() == 0 {
        0
    } else if s.first() is Err {
        0
    } else {
        1 + first_err_index(s.drop_first())
    }
}

/// `first_err_index` is exactly characterized by an all-successful prefix
/// followed by a failure (or by the end of the outcomes).
pub proof fn lemma_first_err_index_of<R, E>(s: Seq<Result<R, E>>, k: int)
    requires
        0 <= k <= s.len(),
        forall|j: int| 0 <= j < k ==> s[j] is Ok,
        k < s.len() ==> s[k] is Err,
    ensures
        first_err_index(s) == k,
    decreases s.len(),
{
    if s.len() > 0 && k > 0 {
        let t = s.drop_first();
        assert forall|j: int| 0 <= j < k - 1 implies t[j] is Ok by {
            assert(t[j] == s[j + 1]);
        }
        assert(k - 1 < t.len() ==> t[k - 1] == s[k]);
        lemma_first_err_index_of(t, k - 1);
    }
}

/// Settles a fully drained broadcast, with the outcomes in shard order:
/// every shard's value when all succeeded, otherwise the first failure.
#[verifier::loop_isolation(false)]
pub fn aggregate_shard_results<R, E>(results: Vec<Result<R, E>>) -> (agg: Result<Vec<R>, E>)
    ensures
        agg is Ok <==> first_err_index(results@) == results@.len(),
        agg is Ok ==> agg->Ok_0@ == results@.map_values(|r: Result<R, E>| r->Ok_0),
        agg is Err ==> agg->Err_0 == results@[first_err_index(results@)]->Err_0,
{
    let ghost orig = results@;
    let mut rest = results;
    let mut values: Vec<R> = Vec::new();
    while rest.len() > 0
        invariant
            rest@ == orig.skip(values@.len() as int),
            values@.len() <= orig.len(),
            forall|j: int| 0 <= j < values@.len() ==> orig[j] is Ok,
            forall|j: int| 0 <= j < values@.len() ==> values@[j] == orig[j]->Ok_0,
        decreases rest@.len(),
    {
        let ghost k = values@.len() as int;
        proof {
            assert(rest@[0] == orig[k]);
        }
        let r = rest.remove(0);
        match r {
            Ok(v) => {
                values.push(v);
                proof {
                    assert(rest@ =~= orig.skip(k + 1));
                }
            },
            Err(e) => {
                proof {
                    lemma_first_err_index_of(orig, k);
                }
                return Err(e);
            },
        }
    }
    proof {
        lemma_first_err_index_of(orig, values@.len() as int);
        assert(values@ =~= orig.map_values(|r: Result<R, E>| r->Ok_0));
    }
    Ok(values)
}

} // verus!
