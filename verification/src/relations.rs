//! The challenge-derived folding relations of the lookup argument.
//!
//! A relation folds a fixed-width tuple of base-field elements into one
//! secure-field element: a random affine combination by powers of a
//! drawn challenge, shifted by a drawn batching offset. Two components
//! sharing a relation agree on the tuple shape, and equal tuples fold
//! to equal elements.

use vstd::prelude::*;

use crate::extension::{c_add, c_mul, c_r, q_add, q_from_m31, q_mul, q_pow, q_sub, q_zero, CM31, QM31};
use crate::field::M31;

verus! {

/// Width of a memory tuple: one id and four value coordinates.
pub const MEMORY_ID_SIZE: usize = 1;

/// Number of value coordinates in a memory tuple.
pub const VALUE_SIZE: usize = 4;

/// Width of a memory tuple.
pub const N_MEMORY_ELEMS: usize = 5;

/// Width of a machine-state tuple: `ap`, `fp`, `pc`.
pub const STATE_SIZE: usize = 3;

/// A challenge-derived folding relation.
pub struct Relation {
    /// The batching offset challenge.
    pub z: QM31,
    /// The folding challenge.
    pub alpha: QM31,
    /// The powers of the folding challenge, one per tuple slot.
    pub alpha_powers: Vec<QM31>,
}

/// The random affine combination of the tuple under the relation's
/// challenge powers, before the offset is subtracted.
pub open spec fn combine_sum(powers: Seq<QM31>, values: Seq<M31>) -> QM31
    decreases values.len(),
{
    if values.len() == 0 {
        q_zero()
    } else {
        q_add(
            combine_sum(powers, values.drop_last()),
            q_mul(powers[values.len() - 1], q_from_m31(values.last())),
        )
    }
}

/// What a relation folds a tuple to.
pub open spec fn spec_combine(rel: Relation, values: Seq<M31>) -> QM31 {
    q_sub(combine_sum(rel.alpha_powers@, values), rel.z)
}

impl Relation {
    /// The challenges are reduced, every power is reduced, and the
    /// powers are the successive powers of one challenge.
    pub open spec fn wf(self) -> bool {
        &&& self.z.wf()
        &&& self.alpha.wf()
        &&& self.alpha_powers@.len() >= 2
        &&& forall|i: int|
            0 <= i < self.alpha_powers@.len() ==> (#[trigger] self.alpha_powers@[i]).wf()
                && self.alpha_powers@[i] == q_pow(self.alpha, i as nat)
    }

    /// Build a relation of the given width from the two drawn
    /// challenges: the batching offset and the folding challenge.
    pub fn draw(z: QM31, alpha: QM31, width: usize) -> (r: Relation)
        requires
            z.wf(),
            alpha.wf(),
            2 <= width,
        ensures
            r.wf(),
            r.z == z,
            r.alpha == alpha,
            r.alpha_powers@.len() == width,
            forall|i: int|
                0 <= i < width ==> (#[trigger] r.alpha_powers@[i]) == q_pow(alpha, i as nat),
    {
        let mut alpha_powers: Vec<QM31> = Vec::new();
        let one = QM31::from_m31(M31 { value: 1 });
        alpha_powers.push(one);
        let mut current = one;
        while alpha_powers.len() < width
            invariant
                alpha.wf(),
                1 <= alpha_powers@.len() <= width,
                current.wf(),
                current == q_pow(alpha, (alpha_powers@.len() - 1) as nat),
                forall|i: int|
                    0 <= i < alpha_powers@.len() ==> (#[trigger] alpha_powers@[i]) == q_pow(
                        alpha,
                        i as nat,
                    ) && alpha_powers@[i].wf(),
            decreases width - alpha_powers.len(),
        {
            current = alpha.mul(current);
            alpha_powers.push(current);
        }
        Relation { z, alpha, alpha_powers }
    }

    /// A second relation instance with the same challenges and powers.
    pub fn duplicate(&self) -> (r: Relation)
        ensures
            r.z == self.z,
            r.alpha == self.alpha,
            r.alpha_powers@ == self.alpha_powers@,
            self.wf() ==> r.wf(),
    {
        let mut alpha_powers: Vec<QM31> = Vec::new();
        let mut i: usize = 0;
        let n = self.alpha_powers.len();
        while i < n
            invariant
                i <= n,
                n == self.alpha_powers@.len(),
                alpha_powers@ == self.alpha_powers@.subrange(0, i as int),
            decreases n - i,
        {
            alpha_powers.push(self.alpha_powers[i]);
            proof {
                assert(alpha_powers@ =~= self.alpha_powers@.subrange(0, i + 1));
            }
            i = i + 1;
        }
        proof {
            assert(self.alpha_powers@.subrange(0, n as int) =~= self.alpha_powers@);
        }
        Relation { z: self.z, alpha: self.alpha, alpha_powers }
    }

    /// Fold a tuple: the random affine combination of its elements by
    /// the challenge powers, minus the batching offset.
    pub fn combine(&self, values: &Vec<M31>) -> (r: QM31)
        requires
            self.wf(),
            1 <= values@.len() <= self.alpha_powers@.len(),
            forall|i: int| 0 <= i < values@.len() ==> (#[trigger] values@[i]).wf(),
        ensures
            r == spec_combine(*self, values@),
            r.wf(),
    {
        let mut acc = QM31::zero();
        let mut i: usize = 0;
        proof {
            assert(values@.subrange(0, 0) =~= Seq::<M31>::empty());
        }
        while i < values.len()
            invariant
                self.wf(),
                i <= values@.len(),
                values@.len() <= self.alpha_powers@.len(),
                forall|j: int| 0 <= j < values@.len() ==> (#[trigger] values@[j]).wf(),
                acc == combine_sum(self.alpha_powers@, values@.subrange(0, i as int)),
                acc.wf(),
            decreases values@.len() - i,
        {
            let ghost prefix = values@.subrange(0, i as int);
            let term = self.alpha_powers[i].mul(QM31::from_m31(values[i]));
            acc = acc.add(term);
            proof {
                assert(values@.subrange(0, i + 1).drop_last() =~= prefix);
                assert(values@.subrange(0, i + 1).last() == values@[i as int]);
            }
            i = i + 1;
        }
        proof {
            assert(values@.subrange(0, values@.len() as int) =~= values@);
        }
        acc.sub(self.z)
    }
}

/// Multiplying by one on the right changes nothing.
pub proof fn lemma_q_mul_one_right(x: QM31)
    requires
        x.wf(),
    ensures
        q_mul(x, q_from_m31(M31 { value: 1 })) == x,
{
    vstd::arithmetic::div_mod::lemma_small_mod(x.a.a.value as nat, crate::field::P as nat);
    vstd::arithmetic::div_mod::lemma_small_mod(x.a.b.value as nat, crate::field::P as nat);
    vstd::arithmetic::div_mod::lemma_small_mod(x.b.a.value as nat, crate::field::P as nat);
    vstd::arithmetic::div_mod::lemma_small_mod(x.b.b.value as nat, crate::field::P as nat);
    let one_c = CM31 { a: M31 { value: 1 }, b: M31 { value: 0 } };
    let zero_c = CM31 { a: M31 { value: 0 }, b: M31 { value: 0 } };
    assert(c_mul(x.a, one_c) == x.a);
    assert(c_mul(x.b, one_c) == x.b);
    assert(c_mul(x.a, zero_c) == zero_c);
    assert(c_mul(x.b, zero_c) == zero_c);
    assert(c_mul(c_r(), zero_c) == zero_c);
    assert(c_add(x.a, zero_c) == x.a);
    assert(c_add(zero_c, x.b) == x.b);
}

} // verus!
