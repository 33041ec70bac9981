//! Weighted sums over sequences.
//!
//! The escrow ledger and the payment checks are stated as sums of a weight
//! function over a sequence: the escrowed total over the stored swaps, the
//! attached native amount over a list of coins. [`seq_sum`] is that sum; the
//! lemmas here give the algebra the proofs need.

use vstd::prelude::*;

verus! {

/// The sum of `w` over the elements of `s`.
pub open spec fn seq_sum<A>(s: Seq<A>, w: spec_fn(A) -> int) -> int
    decreases s.len(),
{
    if s.len() == 0 {
        0
    } else {
        seq_sum(s.drop_last(), w) + w(s.last())
    }
}

pub proof fn lemma_seq_sum_singleton<A>(x: A, w: spec_fn(A) -> int)
    ensures
        seq_sum(seq![x], w) == w(x),
{
    assert(seq![x].drop_last() =~= Seq::<A>::empty());
    assert(seq_sum(Seq::<A>::empty(), w) == 0);
    assert(seq![x].last() == x);
}

pub proof fn lemma_seq_sum_concat<A>(a: Seq<A>, b: Seq<A>, w: spec_fn(A) -> int)
    ensures
        seq_sum(a + b, w) == seq_sum(a, w) + seq_sum(b, w),
    decreases b.len(),
{
    if b.len() == 0 {
        assert(a + b =~= a);
    } else {
        assert((a + b).drop_last() =~= a + b.drop_last());
        assert((a + b).last() == b.last());
        lemma_seq_sum_concat(a, b.drop_last(), w);
    }
}

pub proof fn lemma_seq_sum_nonneg<A>(s: Seq<A>, w: spec_fn(A) -> int)
    requires
        forall|x: A| #[trigger] w(x) >= 0,
    ensures
        seq_sum(s, w) >= 0,
    decreases s.len(),
{
    if s.len() > 0 {
        lemma_seq_sum_nonneg(s.drop_last(), w);
    }
}

/// A prefix of a nonnegatively weighted sequence weighs no more than the whole.
pub proof fn lemma_seq_sum_take<A>(s: Seq<A>, w: spec_fn(A) -> int, i: int)
    requires
        0 <= i <= s.len(),
        forall|x: A| #[trigger] w(x) >= 0,
    ensures
        seq_sum(s.take(i), w) <= seq_sum(s, w),
{
    assert(s =~= s.take(i) + s.skip(i));
    lemma_seq_sum_concat(s.take(i), s.skip(i), w);
    lemma_seq_sum_nonneg(s.skip(i), w);
}

/// A filter partitions a sum.
pub proof fn lemma_seq_sum_partition<A>(s: Seq<A>, w: spec_fn(A) -> int, p: spec_fn(A) -> bool)
    ensures
        seq_sum(s, w) == seq_sum(s.filter(p), w) + seq_sum(s.filter(|x: A| !p(x)), w),
    decreases s.len(),
{
    reveal(Seq::filter);
    if s.len() > 0 {
        lemma_seq_sum_partition(s.drop_last(), w, p);
        if p(s.last()) {
            let fl = s.drop_last().filter(p);
            assert(fl.push(s.last()).drop_last() =~= fl);
            assert(seq_sum(s.filter(p), w) == seq_sum(fl, w) + w(s.last()));
        } else {
            let fl = s.drop_last().filter(|x: A| !p(x));
            assert(fl.push(s.last()).drop_last() =~= fl);
            assert(seq_sum(s.filter(|x: A| !p(x)), w) == seq_sum(fl, w) + w(s.last()));
        }
    }
}


} // verus!
