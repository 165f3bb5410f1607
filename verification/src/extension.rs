//! The degree-4 extension of the base field ("secure field").
//!
//! The extension is a tower of two quadratic steps: `CM31` adjoins `i`
//! with `i * i = -1`, and `QM31` adjoins `u` with `u * u = 2 + i`.
//! All lookup denominators, challenges and claimed sums live in `QM31`.

use vstd::prelude::*;

use crate::field::{m_add, m_inv, m_mul, m_neg, m_sub, M31};

verus! {

/// An element `a + b*i` of the first quadratic extension.
#[derive(Clone, Copy, PartialEq, Eq, Structural, Debug)]
pub struct CM31 {
    pub a: M31,
    pub b: M31,
}

/// An element `a + b*u` of the degree-4 extension, with `u * u = 2 + i`.
#[derive(Clone, Copy, PartialEq, Eq, Structural, Debug)]
pub struct QM31 {
    pub a: CM31,
    pub b: CM31,
}

/// Sum in the first extension.
pub open spec fn c_add(x: CM31, y: CM31) -> CM31 {
    CM31 { a: m_add(x.a, y.a), b: m_add(x.b, y.b) }
}

/// Difference in the first extension.
pub open spec fn c_sub(x: CM31, y: CM31) -> CM31 {
    CM31 { a: m_sub(x.a, y.a), b: m_sub(x.b, y.b) }
}

/// Additive inverse in the first extension.
pub open spec fn c_neg(x: CM31) -> CM31 {
    CM31 { a: m_neg(x.a), b: m_neg(x.b) }
}

/// Product in the first extension: `(a + bi)(c + di) = (ac - bd) + (ad + bc)i`.
pub open spec fn c_mul(x: CM31, y: CM31) -> CM31 {
    CM31 {
        a: m_sub(m_mul(x.a, y.a), m_mul(x.b, y.b)),
        b: m_add(m_mul(x.a, y.b), m_mul(x.b, y.a)),
    }
}

/// The constant `2 + i`, the square of the generator of the second step.
pub open spec fn c_r() -> CM31 {
    CM31 { a: M31 { value: 2 }, b: M31 { value: 1 } }
}

/// Inverse in the first extension, via the norm `a^2 + b^2`.
#[verifier::opaque]
pub open spec fn c_inv(x: CM31) -> CM31 {
    let d = m_inv(m_add(m_mul(x.a, x.a), m_mul(x.b, x.b)));
    CM31 { a: m_mul(x.a, d), b: m_mul(m_neg(x.b), d) }
}

/// Sum in the secure field.
pub open spec fn q_add(x: QM31, y: QM31) -> QM31 {
    QM31 { a: c_add(x.a, y.a), b: c_add(x.b, y.b) }
}

/// Difference in the secure field.
pub open spec fn q_sub(x: QM31, y: QM31) -> QM31 {
    QM31 { a: c_sub(x.a, y.a), b: c_sub(x.b, y.b) }
}

/// Additive inverse in the secure field.
pub open spec fn q_neg(x: QM31) -> QM31 {
    QM31 { a: c_neg(x.a), b: c_neg(x.b) }
}

/// Product in the secure field:
/// `(a + bu)(c + du) = (ac + (2+i) bd) + (ad + bc)u`.
pub open spec fn q_mul(x: QM31, y: QM31) -> QM31 {
    QM31 {
        a: c_add(c_mul(x.a, y.a), c_mul(c_r(), c_mul(x.b, y.b))),
        b: c_add(c_mul(x.a, y.b), c_mul(x.b, y.a)),
    }
}

/// Inverse in the secure field, via the norm `a^2 - (2+i) b^2` down to
/// the first extension.
#[verifier::opaque]
pub open spec fn q_inv(x: QM31) -> QM31 {
    let denom = c_sub(c_mul(x.a, x.a), c_mul(c_r(), c_mul(x.b, x.b)));
    let di = c_inv(denom);
    QM31 { a: c_mul(x.a, di), b: c_mul(c_neg(x.b), di) }
}

/// `x` raised to the power `e` in the secure field.
pub open spec fn q_pow(x: QM31, e: nat) -> QM31
    decreases e,
{
    if e == 0 {
        q_from_m31(M31 { value: 1 })
    } else {
        q_mul(x, q_pow(x, (e - 1) as nat))
    }
}

/// The one element of the secure field.
pub open spec fn q_one() -> QM31 {
    QM31 {
        a: CM31 { a: M31 { value: 1 }, b: M31 { value: 0 } },
        b: CM31 { a: M31 { value: 0 }, b: M31 { value: 0 } },
    }
}

/// The zero element of the secure field.
pub open spec fn q_zero() -> QM31 {
    QM31 {
        a: CM31 { a: M31 { value: 0 }, b: M31 { value: 0 } },
        b: CM31 { a: M31 { value: 0 }, b: M31 { value: 0 } },
    }
}

/// The base-field element `x`, embedded in the secure field.
pub open spec fn q_from_m31(x: M31) -> QM31 {
    QM31 {
        a: CM31 { a: x, b: M31 { value: 0 } },
        b: CM31 { a: M31 { value: 0 }, b: M31 { value: 0 } },
    }
}

/// The four base-field coordinates `a, b, c, d` assembled into
/// `(a + bi) + (c + di)u`.
pub open spec fn q_from_parts(c0: M31, c1: M31, c2: M31, c3: M31) -> QM31 {
    QM31 { a: CM31 { a: c0, b: c1 }, b: CM31 { a: c2, b: c3 } }
}

impl CM31 {
    /// Both coordinates are reduced.
    pub open spec fn wf(self) -> bool {
        self.a.wf() && self.b.wf()
    }

    /// Sum in the first extension.
    pub fn add(self, other: CM31) -> (r: CM31)
        requires
            self.wf(),
            other.wf(),
        ensures
            r == c_add(self, other),
            r.wf(),
    {
        CM31 { a: self.a.add(other.a), b: self.b.add(other.b) }
    }

    /// Difference in the first extension.
    pub fn sub(self, other: CM31) -> (r: CM31)
        requires
            self.wf(),
            other.wf(),
        ensures
            r == c_sub(self, other),
            r.wf(),
    {
        CM31 { a: self.a.sub(other.a), b: self.b.sub(other.b) }
    }

    /// Additive inverse in the first extension.
    pub fn neg(self) -> (r: CM31)
        requires
            self.wf(),
        ensures
            r == c_neg(self),
            r.wf(),
    {
        CM31 { a: self.a.neg(), b: self.b.neg() }
    }

    /// Product in the first extension.
    pub fn mul(self, other: CM31) -> (r: CM31)
        requires
            self.wf(),
            other.wf(),
        ensures
            r == c_mul(self, other),
            r.wf(),
    {
        CM31 {
            a: self.a.mul(other.a).sub(self.b.mul(other.b)),
            b: self.a.mul(other.b).add(self.b.mul(other.a)),
        }
    }

    /// Inverse in the first extension.
    pub fn inverse(self) -> (r: CM31)
        requires
            self.wf(),
        ensures
            r == c_inv(self),
            r.wf(),
    {
        proof {
            reveal(c_inv);
        }
        let d = self.a.mul(self.a).add(self.b.mul(self.b)).inverse();
        CM31 { a: self.a.mul(d), b: self.b.neg().mul(d) }
    }
}

impl QM31 {
    /// All four coordinates are reduced.
    pub open spec fn wf(self) -> bool {
        self.a.wf() && self.b.wf()
    }

    /// The zero element.
    pub fn zero() -> (r: QM31)
        ensures
            r == q_zero(),
            r.wf(),
    {
        QM31 {
            a: CM31 { a: M31 { value: 0 }, b: M31 { value: 0 } },
            b: CM31 { a: M31 { value: 0 }, b: M31 { value: 0 } },
        }
    }

    /// The base-field element `x`, embedded in the secure field.
    pub fn from_m31(x: M31) -> (r: QM31)
        requires
            x.wf(),
        ensures
            r == q_from_m31(x),
            r.wf(),
    {
        QM31 {
            a: CM31 { a: x, b: M31 { value: 0 } },
            b: CM31 { a: M31 { value: 0 }, b: M31 { value: 0 } },
        }
    }

    /// Assemble an element from its four base-field coordinates.
    pub fn from_parts(c0: M31, c1: M31, c2: M31, c3: M31) -> (r: QM31)
        requires
            c0.wf(),
            c1.wf(),
            c2.wf(),
            c3.wf(),
        ensures
            r == q_from_parts(c0, c1, c2, c3),
            r.wf(),
    {
        QM31 { a: CM31 { a: c0, b: c1 }, b: CM31 { a: c2, b: c3 } }
    }

    /// Sum in the secure field.
    pub fn add(self, other: QM31) -> (r: QM31)
        requires
            self.wf(),
            other.wf(),
        ensures
            r == q_add(self, other),
            r.wf(),
    {
        QM31 { a: self.a.add(other.a), b: self.b.add(other.b) }
    }

    /// Difference in the secure field.
    pub fn sub(self, other: QM31) -> (r: QM31)
        requires
            self.wf(),
            other.wf(),
        ensures
            r == q_sub(self, other),
            r.wf(),
    {
        QM31 { a: self.a.sub(other.a), b: self.b.sub(other.b) }
    }

    /// Additive inverse in the secure field.
    pub fn neg(self) -> (r: QM31)
        requires
            self.wf(),
        ensures
            r == q_neg(self),
            r.wf(),
    {
        QM31 { a: self.a.neg(), b: self.b.neg() }
    }

    /// Product in the secure field.
    pub fn mul(self, other: QM31) -> (r: QM31)
        requires
            self.wf(),
            other.wf(),
        ensures
            r == q_mul(self, other),
            r.wf(),
    {
        let r_const = CM31 { a: M31 { value: 2 }, b: M31 { value: 1 } };
        QM31 {
            a: self.a.mul(other.a).add(r_const.mul(self.b.mul(other.b))),
            b: self.a.mul(other.b).add(self.b.mul(other.a)),
        }
    }

    /// Inverse in the secure field.
    pub fn inverse(self) -> (r: QM31)
        requires
            self.wf(),
        ensures
            r == q_inv(self),
            r.wf(),
    {
        proof {
            reveal(q_inv);
        }
        let r_const = CM31 { a: M31 { value: 2 }, b: M31 { value: 1 } };
        let denom = self.a.mul(self.a).sub(r_const.mul(self.b.mul(self.b)));
        let di = denom.inverse();
        QM31 { a: self.a.mul(di), b: self.b.neg().mul(di) }
    }
}

/// The inverse always has reduced coordinates.
pub proof fn lemma_q_inv_wf(x: QM31)
    ensures
        q_inv(x).wf(),
{
    reveal(q_inv);
    reveal(c_inv);
}

/// Adding zero on the left changes nothing.
pub proof fn lemma_q_add_zero_left(x: QM31)
    requires
        x.wf(),
    ensures
        q_add(q_zero(), x) == x,
{
    lemma_small_mod_coords(x);
}

/// Multiplying by one on the left changes nothing.
pub proof fn lemma_q_mul_one_left(x: QM31)
    requires
        x.wf(),
    ensures
        q_mul(q_one(), x) == x,
{
    lemma_small_mod_coords(x);
    let one_c = CM31 { a: M31 { value: 1 }, b: M31 { value: 0 } };
    let zero_c = CM31 { a: M31 { value: 0 }, b: M31 { value: 0 } };
    assert(c_mul(one_c, x.a) == x.a);
    assert(c_mul(one_c, x.b) == x.b);
    assert(c_mul(zero_c, x.b) == zero_c);
    assert(c_mul(zero_c, x.a) == zero_c);
    assert(c_mul(c_r(), zero_c) == zero_c);
    assert(c_add(x.a, zero_c) == x.a);
    assert(c_add(zero_c, x.b) == x.b);
}

/// Multiplying by minus one on the left negates.
pub proof fn lemma_q_mul_neg_one_left(x: QM31)
    requires
        x.wf(),
    ensures
        q_mul(q_neg(q_one()), x) == q_neg(x),
{
    let p = crate::field::P as int;
    lemma_small_mod_coords(x);
    lemma_m_mul_neg_one(x.a.a);
    lemma_m_mul_neg_one(x.a.b);
    lemma_m_mul_neg_one(x.b.a);
    lemma_m_mul_neg_one(x.b.b);
    vstd::arithmetic::div_mod::lemma_small_mod(m_neg(x.a.a).value as nat, crate::field::P as nat);
    vstd::arithmetic::div_mod::lemma_small_mod(m_neg(x.a.b).value as nat, crate::field::P as nat);
    vstd::arithmetic::div_mod::lemma_small_mod(m_neg(x.b.a).value as nat, crate::field::P as nat);
    vstd::arithmetic::div_mod::lemma_small_mod(m_neg(x.b.b).value as nat, crate::field::P as nat);
    let neg_one_c = CM31 { a: M31 { value: (crate::field::P - 1) as u32 }, b: M31 { value: 0 } };
    let zero_c = CM31 { a: M31 { value: 0 }, b: M31 { value: 0 } };
    assert(q_neg(q_one()).a == neg_one_c);
    assert(q_neg(q_one()).b == zero_c);
    assert(c_mul(neg_one_c, x.a) == c_neg(x.a));
    assert(c_mul(neg_one_c, x.b) == c_neg(x.b));
    assert(c_mul(zero_c, x.b) == zero_c);
    assert(c_mul(zero_c, x.a) == zero_c);
    assert(c_mul(c_r(), zero_c) == zero_c);
    assert(c_add(c_neg(x.a), zero_c) == c_neg(x.a));
    assert(c_add(zero_c, c_neg(x.b)) == c_neg(x.b));
}

/// An element and its additive inverse sum to zero.
pub proof fn lemma_q_add_neg(x: QM31)
    requires
        x.wf(),
    ensures
        q_add(x, q_neg(x)) == q_zero(),
{
    lemma_m_add_neg(x.a.a);
    lemma_m_add_neg(x.a.b);
    lemma_m_add_neg(x.b.a);
    lemma_m_add_neg(x.b.b);
}

/// Multiplying a coordinate by `P - 1` negates it.
proof fn lemma_m_mul_neg_one(y: M31)
    requires
        y.wf(),
    ensures
        m_mul(M31 { value: (crate::field::P - 1) as u32 }, y) == m_neg(y),
{
    let p = crate::field::P as int;
    vstd::arithmetic::div_mod::lemma_mod_multiples_vanish(y.value as int, 0 - y.value, p);
    assert(p * y.value + (0 - y.value) == (p - 1) * y.value) by (nonlinear_arith);
}

/// A coordinate and its additive inverse sum to zero.
proof fn lemma_m_add_neg(y: M31)
    requires
        y.wf(),
    ensures
        m_add(y, m_neg(y)) == (M31 { value: 0 }),
{
    let p = crate::field::P as int;
    if y.value == 0 {
    } else {
        vstd::arithmetic::div_mod::lemma_small_mod((p - y.value) as nat, crate::field::P as nat);
        assert(m_neg(y).value == p - y.value);
        vstd::arithmetic::div_mod::lemma_mod_self_0(p);
    }
}

/// All four coordinates are below the modulus.
proof fn lemma_small_mod_coords(x: QM31)
    requires
        x.wf(),
    ensures
        (x.a.a.value as int) % (crate::field::P as int) == x.a.a.value as int,
        (x.a.b.value as int) % (crate::field::P as int) == x.a.b.value as int,
        (x.b.a.value as int) % (crate::field::P as int) == x.b.a.value as int,
        (x.b.b.value as int) % (crate::field::P as int) == x.b.b.value as int,
{
    vstd::arithmetic::div_mod::lemma_small_mod(x.a.a.value as nat, crate::field::P as nat);
    vstd::arithmetic::div_mod::lemma_small_mod(x.a.b.value as nat, crate::field::P as nat);
    vstd::arithmetic::div_mod::lemma_small_mod(x.b.a.value as nat, crate::field::P as nat);
    vstd::arithmetic::div_mod::lemma_small_mod(x.b.b.value as nat, crate::field::P as nat);
}

} // verus!
