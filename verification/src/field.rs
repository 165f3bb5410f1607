//! The base prime field and its degree-4 extension.
//!
//! The base field has modulus `P = 2^31 - 1` (a Mersenne prime). The
//! extension is built in two quadratic steps: first adjoining `i` with
//! `i * i = -1`, then adjoining `u` with `u * u = 2 + i`. Challenges,
//! lookup denominators and claimed sums live in the extension field.

use vstd::prelude::*;

verus! {

/// The modulus of the base field: the Mersenne prime `2^31 - 1`.
pub const P: u32 = 0x7fff_ffff;

/// An element of the base field, held as a reduced representative.
#[derive(Clone, Copy, PartialEq, Eq, Structural, Debug, Hash)]
pub struct M31 {
    pub value: u32,
}

/// The canonical representative of `x` modulo `P`.
pub open spec fn m31_of(x: int) -> M31 {
    M31 { value: (x % (P as int)) as u32 }
}

/// Sum in the base field.
pub open spec fn m_add(x: M31, y: M31) -> M31 {
    m31_of(x.value + y.value)
}

/// Difference in the base field.
pub open spec fn m_sub(x: M31, y: M31) -> M31 {
    m31_of(x.value - y.value)
}

/// Product in the base field.
pub open spec fn m_mul(x: M31, y: M31) -> M31 {
    m31_of(x.value * y.value)
}

/// Additive inverse in the base field.
pub open spec fn m_neg(x: M31) -> M31 {
    m31_of(0 - x.value)
}

impl M31 {
    /// The representative is reduced.
    pub open spec fn wf(self) -> bool {
        self.value < P
    }

    /// The zero element.
    pub fn zero() -> (r: M31)
        ensures
            r == (M31 { value: 0 }),
            r.wf(),
    {
        M31 { value: 0 }
    }

    /// The one element.
    pub fn one() -> (r: M31)
        ensures
            r == (M31 { value: 1 }),
            r.wf(),
    {
        M31 { value: 1 }
    }

    /// Reduce an arbitrary machine word into the field.
    pub fn new(value: u32) -> (r: M31)
        ensures
            r == m31_of(value as int),
            r.wf(),
    {
        M31 { value: value % P }
    }

    /// Field addition.
    pub fn add(self, other: M31) -> (r: M31)
        requires
            self.wf(),
            other.wf(),
        ensures
            r == m_add(self, other),
            r.wf(),
    {
        let sum: u32 = self.value + other.value;
        if sum >= P {
            proof {
                vstd::arithmetic::div_mod::lemma_mod_sub_multiples_vanish(sum as int, P as int);
                vstd::arithmetic::div_mod::lemma_small_mod((sum - P) as nat, P as nat);
            }
            M31 { value: sum - P }
        } else {
            proof {
                vstd::arithmetic::div_mod::lemma_small_mod(sum as nat, P as nat);
            }
            M31 { value: sum }
        }
    }

    /// Field subtraction.
    pub fn sub(self, other: M31) -> (r: M31)
        requires
            self.wf(),
            other.wf(),
        ensures
            r == m_sub(self, other),
            r.wf(),
    {
        if self.value >= other.value {
            proof {
                vstd::arithmetic::div_mod::lemma_small_mod(
                    (self.value - other.value) as nat,
                    P as nat,
                );
            }
            M31 { value: self.value - other.value }
        } else {
            let diff: u32 = self.value + P - other.value;
            proof {
                vstd::arithmetic::div_mod::lemma_mod_add_multiples_vanish(
                    self.value - other.value,
                    P as int,
                );
                vstd::arithmetic::div_mod::lemma_small_mod(diff as nat, P as nat);
            }
            M31 { value: diff }
        }
    }

    /// Field negation.
    pub fn neg(self) -> (r: M31)
        requires
            self.wf(),
        ensures
            r == m_neg(self),
            r.wf(),
    {
        if self.value == 0 {
            proof {
                vstd::arithmetic::div_mod::lemma_small_mod(0nat, P as nat);
            }
            M31 { value: 0 }
        } else {
            proof {
                vstd::arithmetic::div_mod::lemma_mod_add_multiples_vanish(
                    0 - self.value,
                    P as int,
                );
                vstd::arithmetic::div_mod::lemma_small_mod((P - self.value) as nat, P as nat);
            }
            M31 { value: P - self.value }
        }
    }

    /// Field multiplication.
    pub fn mul(self, other: M31) -> (r: M31)
        requires
            self.wf(),
            other.wf(),
        ensures
            r == m_mul(self, other),
            r.wf(),
    {
        proof {
            assert((self.value as int) * (other.value as int) < 0x4000_0000_0000_0000)
                by (nonlinear_arith)
                requires
                    self.value < 0x8000_0000,
                    other.value < 0x8000_0000,
            ;
        }
        let prod: u64 = (self.value as u64) * (other.value as u64);
        let rem: u64 = prod % (P as u64);
        M31 { value: rem as u32 }
    }

    /// Exponentiation by squaring.
    pub fn pow(self, exp: u32) -> (r: M31)
        requires
            self.wf(),
        ensures
            r == m_pow(self, exp as nat),
            r.wf(),
    {
        let mut base: M31 = self;
        let mut e: u32 = exp;
        let mut result: M31 = M31 { value: 1 };
        proof {
            vstd::arithmetic::div_mod::lemma_small_mod(1nat, P as nat);
        }
        while e > 0
            invariant
                base.wf(),
                result.wf(),
                m_mul(result, m_pow(base, e as nat)) == m_pow(self, exp as nat),
            decreases e,
        {
            if e % 2 == 1 {
                proof {
                    lemma_m_pow_even(base, ((e - 1) / 2) as nat);
                    lemma_m_mul_assoc(result, base, m_pow(m_mul(base, base), ((e - 1) / 2) as nat));
                }
                result = result.mul(base);
            } else {
                proof {
                    lemma_m_pow_even(base, (e / 2) as nat);
                }
            }
            base = base.mul(base);
            e = e / 2;
        }
        proof {
            vstd::arithmetic::div_mod::lemma_small_mod(result.value as nat, P as nat);
        }
        result
    }

    /// Multiplicative inverse, as the fixed power `x^(P-2)`.
    pub fn inverse(self) -> (r: M31)
        requires
            self.wf(),
        ensures
            r == m_inv(self),
            r.wf(),
    {
        proof {
            reveal(m_inv);
        }
        self.pow(P - 2)
    }
}

/// `x` raised to the power `e` in the base field.
pub open spec fn m_pow(x: M31, e: nat) -> M31
    decreases e,
{
    if e == 0 {
        M31 { value: 1 }
    } else {
        m_mul(x, m_pow(x, (e - 1) as nat))
    }
}

/// The inverse of `x`, computed as the fixed power `x^(P-2)`, which by
/// Fermat's little theorem is the multiplicative inverse of any nonzero
/// element of the base field.
#[verifier::opaque]
pub open spec fn m_inv(x: M31) -> M31 {
    m_pow(x, (P - 2) as nat)
}

/// Base-field multiplication is associative.
pub proof fn lemma_m_mul_assoc(x: M31, y: M31, z: M31)
    ensures
        m_mul(m_mul(x, y), z) == m_mul(x, m_mul(y, z)),
{
    let p = P as int;
    let a = x.value as int;
    let b = y.value as int;
    let c = z.value as int;
    vstd::arithmetic::div_mod::lemma_mul_mod_noop_left(a * b, c, p);
    vstd::arithmetic::div_mod::lemma_mul_mod_noop_right(a, b * c, p);
    vstd::arithmetic::mul::lemma_mul_is_associative(a, b, c);
}

/// Base-field multiplication is commutative.
pub proof fn lemma_m_mul_comm(x: M31, y: M31)
    ensures
        m_mul(x, y) == m_mul(y, x),
{
    vstd::arithmetic::mul::lemma_mul_is_commutative(x.value as int, y.value as int);
}

/// An even power equals the half power of the square.
proof fn lemma_m_pow_even(x: M31, k: nat)
    ensures
        m_pow(x, 2 * k) == m_pow(m_mul(x, x), k),
    decreases k,
{
    if k > 0 {
        lemma_m_pow_even(x, (k - 1) as nat);
        assert(2 * k - 2 == 2 * ((k - 1) as nat));
        assert(m_pow(x, 2 * k) == m_mul(x, m_pow(x, (2 * k - 1) as nat)));
        assert(m_pow(x, (2 * k - 1) as nat) == m_mul(x, m_pow(x, (2 * k - 2) as nat)));
        assert(m_pow(m_mul(x, x), k) == m_mul(m_mul(x, x), m_pow(m_mul(x, x), (k - 1) as nat)));
        lemma_m_mul_assoc(x, x, m_pow(x, (2 * k - 2) as nat));
    }
}

} // verus!
