//! The fractional sums of the lookup argument.
//!
//! Every component's interaction claim is a sum of signed fractions
//! `coefficient / denominator` over the secure field, one fraction per
//! relation entry it emits. Division is by the fixed inverse power
//! (`q_inv`), so the sum is a deterministic function of the entries.

use vstd::prelude::*;

use crate::extension::{
    lemma_q_add_neg, lemma_q_add_zero_left, lemma_q_inv_wf, lemma_q_mul_neg_one_left,
    lemma_q_mul_one_left, q_add, q_inv, q_mul, q_neg, q_one, q_zero, QM31,
};

verus! {

/// The sum of the fractions `coefficient / denominator`, in order.
pub open spec fn frac_sum(terms: Seq<(QM31, QM31)>) -> QM31
    decreases terms.len(),
{
    if terms.len() == 0 {
        q_zero()
    } else {
        q_add(frac_sum(terms.drop_last()), q_mul(terms.last().0, q_inv(terms.last().1)))
    }
}

/// The value of one signed fraction term.
pub open spec fn frac_of(term: (QM31, QM31)) -> QM31 {
    q_mul(term.0, q_inv(term.1))
}

/// Extending the summed prefix by one term adds that term's fraction.
pub proof fn lemma_frac_sum_snoc(terms: Seq<(QM31, QM31)>, k: int)
    requires
        0 <= k < terms.len(),
    ensures
        frac_sum(terms.subrange(0, k + 1)) == q_add(
            frac_sum(terms.subrange(0, k)),
            q_mul(terms[k].0, q_inv(terms[k].1)),
        ),
{
    assert(terms.subrange(0, k + 1).drop_last() =~= terms.subrange(0, k));
    assert(terms.subrange(0, k + 1).last() == terms[k]);
}

/// The heart of the lookup argument's cancellation: one demand of a
/// tuple with coefficient one, and one supply of the same folded tuple
/// with coefficient minus one, sum to zero — so matched entries of two
/// components vanish from the global total.
pub proof fn lemma_matched_pair_cancels(denom: QM31)
    ensures
        frac_sum(seq![(q_one(), denom), (q_neg(q_one()), denom)]) == q_zero(),
{
    let y = q_inv(denom);
    lemma_q_inv_wf(denom);
    lemma_q_mul_one_left(y);
    lemma_q_mul_neg_one_left(y);
    let pair = seq![(q_one(), denom), (q_neg(q_one()), denom)];
    assert(pair.drop_last() =~= seq![(q_one(), denom)]);
    assert(seq![(q_one(), denom)].drop_last() =~= Seq::<(QM31, QM31)>::empty());
    assert(frac_sum(Seq::<(QM31, QM31)>::empty()) == q_zero());
    assert(frac_sum(seq![(q_one(), denom)]) == q_add(q_zero(), q_mul(q_one(), y)));
    lemma_q_add_zero_left(y);
    assert(frac_sum(seq![(q_one(), denom)]) == y);
    assert(frac_sum(pair) == q_add(y, q_mul(q_neg(q_one()), y)));
    lemma_q_add_neg(y);
}

/// Add one fraction to a running sum.
pub fn add_frac(acc: QM31, coef: QM31, denom: QM31) -> (r: QM31)
    requires
        acc.wf(),
        coef.wf(),
        denom.wf(),
    ensures
        r == q_add(acc, q_mul(coef, q_inv(denom))),
        r.wf(),
{
    acc.add(coef.mul(denom.inverse()))
}

} // verus!
