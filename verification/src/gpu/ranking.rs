//! Ranking and selection.
//!
//! Records satisfying the high-memory dedicated predicate come first; the
//! relative order inside each partition is the enumeration order of the
//! input. Records never compare beyond that one predicate, so the sort is
//! stable by construction.

use vstd::prelude::*;
use crate::gpu::{GPUData, spec_is_high_memory_dedicated};

verus! {

/// The ranking predicate of one record.
pub open spec fn spec_high(g: GPUData) -> bool {
    spec_is_high_memory_dedicated(g.is_integrated, g.total_memory)
}

/// The ranking predicate as a function value, shared by every statement
/// about ranking.
pub open spec fn high_pred() -> spec_fn(GPUData) -> bool {
    |g: GPUData| spec_high(g)
}

/// The complement of the ranking predicate as a function value.
pub open spec fn low_pred() -> spec_fn(GPUData) -> bool {
    |g: GPUData| !spec_high(g)
}

/// The ranked order of a record sequence: the records satisfying the
/// predicate, in input order, followed by the rest, in input order.
pub open spec fn spec_rank(s: Seq<GPUData>) -> Seq<GPUData> {
    s.filter(high_pred()) + s.filter(low_pred())
}

/// A sequence is ranked when no record satisfying the predicate follows one
/// that does not.
pub open spec fn spec_is_ranked(s: Seq<GPUData>) -> bool {
    forall|i: int, j: int|
        #![trigger s[i], s[j]]
        0 <= i < j < s.len() && spec_high(s[j]) ==> spec_high(s[i])
}

/// Filtering a single element keeps it exactly when it satisfies the
/// predicate.
pub(crate) proof fn lemma_filter_singleton<A>(x: A, p: spec_fn(A) -> bool)
    ensures
        seq![x].filter(p) == if p(x) {
            seq![x]
        } else {
            Seq::<A>::empty()
        },
{
    reveal_with_fuel(Seq::filter, 2);
    assert(seq![x].drop_last() =~= Seq::<A>::empty());
}

proof fn lemma_filter_partition_len<A>(
    s: Seq<A>,
    p: spec_fn(A) -> bool,
    np: spec_fn(A) -> bool,
)
    requires
        forall|x: A| #[trigger] np(x) == !p(x),
    ensures
        s.filter(p).len() + s.filter(np).len() == s.len(),
    decreases s.len(),
{
    reveal(Seq::filter);
    if s.len() > 0 {
        lemma_filter_partition_len(s.drop_last(), p, np);
    }
}

/// Filtering keeps any property that every member of the input satisfies.
pub proof fn lemma_filter_preserves<A>(s: Seq<A>, p: spec_fn(A) -> bool, q: spec_fn(A) -> bool)
    requires
        forall|i: int| 0 <= i < s.len() ==> q(#[trigger] s[i]),
    ensures
        forall|i: int| 0 <= i < s.filter(p).len() ==> q(#[trigger] s.filter(p)[i]),
    decreases s.len(),
{
    reveal(Seq::filter);
    if s.len() > 0 {
        assert forall|i: int| 0 <= i < s.drop_last().len() implies q(#[trigger] s.drop_last()[i]) by {
            assert(s.drop_last()[i] == s[i]);
        }
        lemma_filter_preserves(s.drop_last(), p, q);
        let out = s.filter(p);
        let sub = s.drop_last().filter(p);
        assert forall|i: int| 0 <= i < out.len() implies q(#[trigger] out[i]) by {
            assert(q(s[s.len() - 1]));
            if p(s.last()) {
                assert(out == sub.push(s.last()));
                if i < sub.len() {
                    assert(out[i] == sub[i]);
                } else {
                    assert(out[i] == s.last());
                }
            } else {
                assert(out == sub);
                assert(out[i] == sub[i]);
            }
        }
    }
}

/// Law: a ranked sequence holds as many records as its input.
pub proof fn lemma_rank_preserves_len(s: Seq<GPUData>)
    ensures
        spec_rank(s).len() == s.len(),
{
    lemma_filter_partition_len(s, high_pred(), low_pred());
}

/// Law: in a ranked sequence every record satisfying the high-memory
/// dedicated predicate precedes every record that does not, and the
/// partitions keep the input order of their members.
pub proof fn lemma_rank_is_ranked(s: Seq<GPUData>)
    ensures
        spec_is_ranked(spec_rank(s)),
{
    let a = s.filter(high_pred());
    let b = s.filter(low_pred());
    let r = spec_rank(s);
    assert forall|i: int, j: int|
        #![trigger r[i], r[j]]
        0 <= i < j < r.len() && spec_high(r[j]) implies spec_high(r[i]) by {
        if j >= a.len() {
            s.lemma_filter_pred(low_pred(), j - a.len());
            assert(!spec_high(r[j]));
        }
        if i < a.len() {
            s.lemma_filter_pred(high_pred(), i);
        }
    }
}

/// Stable partition of the records by the high-memory dedicated predicate:
/// the records satisfying it first, input order kept inside each partition.
pub fn rank_gpus(gpus: Vec<GPUData>) -> (r: Vec<GPUData>)
    ensures
        r@ == spec_rank(gpus@),
        r@.len() == gpus@.len(),
        spec_is_ranked(r@),
{
    let ghost orig: Seq<GPUData> = gpus@;
    let mut rest = gpus;
    let mut hi: Vec<GPUData> = Vec::new();
    let mut lo: Vec<GPUData> = Vec::new();
    let ghost mut k: int = 0;
    while rest.len() > 0
        invariant
            0 <= k <= orig.len(),
            rest@ =~= orig.skip(k),
            hi@ == orig.take(k).filter(high_pred()),
            lo@ == orig.take(k).filter(low_pred()),
        decreases rest@.len(),
    {
        let g = rest.remove(0);
        proof {
            assert(g == orig[k]);
            assert(orig.take(k + 1) =~= orig.take(k) + seq![g]);
            Seq::<GPUData>::filter_distributes_over_add(orig.take(k), seq![g], high_pred());
            Seq::<GPUData>::filter_distributes_over_add(orig.take(k), seq![g], low_pred());
            lemma_filter_singleton(g, high_pred());
            lemma_filter_singleton(g, low_pred());
            assert(rest@ =~= orig.skip(k + 1));
        }
        if g.is_high_memory_dedicated() {
            proof {
                assert(orig.take(k).filter(high_pred()) + seq![g]
                    =~= orig.take(k + 1).filter(high_pred()));
                assert(orig.take(k).filter(low_pred()) + Seq::<GPUData>::empty()
                    =~= orig.take(k + 1).filter(low_pred()));
            }
            hi.push(g);
        } else {
            proof {
                assert(orig.take(k).filter(low_pred()) + seq![g]
                    =~= orig.take(k + 1).filter(low_pred()));
                assert(orig.take(k).filter(high_pred()) + Seq::<GPUData>::empty()
                    =~= orig.take(k + 1).filter(high_pred()));
            }
            lo.push(g);
        }
        proof {
            k = k + 1;
        }
    }
    proof {
        assert(orig.take(k) =~= orig);
        lemma_rank_preserves_len(orig);
        lemma_rank_is_ranked(orig);
    }
    let mut out = hi;
    out.append(&mut lo);
    out
}

} // verus!
