//! Decoding gadgets shared by the opcode components.
//!
//! An instruction word packs boolean and ternary flags by mixed-radix
//! positional encoding; decoding is sequential division with explicit
//! bases, and a nonzero final remainder marks a malformed word.
//! `select_trit` interpolates one of three values from a ternary flag.

use vstd::prelude::*;

use crate::field::{m_add, m_mul, m_sub, M31, P};

verus! {

/// Offset every instruction word of the add/mul opcode carries.
pub const INSTRUCTION_BASE: u32 = 0;

/// Base address of the immediate-value segment.
pub const IMM_BASE: u32 = 0x2000_0000;

/// The flag bases of the add/mul opcode, in decode order.
pub const FLAG_BASES_PRODUCT: u32 = 48;

/// The decoded flags of one add/mul instruction word.
#[derive(Clone, Copy, PartialEq, Eq, Structural, Debug)]
pub struct AddMulFlags {
    /// Selects multiplication over addition.
    pub is_mul: u32,
    /// Selects `fp` over `ap` as the destination base.
    pub reg0: u32,
    /// Selects `ap`, `fp` or the immediate base for the left operand.
    pub reg1: u32,
    /// Selects `fp` over `ap` as the right operand base.
    pub reg2: u32,
    /// Whether `ap` advances after the instruction.
    pub appp: u32,
}

impl AddMulFlags {
    /// Every flag is within its base.
    pub open spec fn wf(self) -> bool {
        self.is_mul < 2 && self.reg0 < 2 && self.reg1 < 3 && self.reg2 < 2 && self.appp < 2
    }
}

/// The instruction word that a flag tuple encodes to, before the base
/// offset is added: a mixed-radix value with bases `2, 2, 3, 2, 2`.
pub open spec fn encode_flags(f: AddMulFlags) -> int {
    f.is_mul + 2 * f.reg0 + 4 * f.reg1 + 12 * f.reg2 + 24 * f.appp
}

/// The flag tuple read out of a packed word by sequential division.
pub open spec fn decode_flags(w: int) -> AddMulFlags {
    AddMulFlags {
        is_mul: (w % 2) as u32,
        reg0: ((w / 2) % 2) as u32,
        reg1: ((w / 4) % 3) as u32,
        reg2: ((w / 12) % 2) as u32,
        appp: ((w / 24) % 2) as u32,
    }
}

/// Decoding undoes encoding, and every valid flag tuple packs below the
/// product of the bases.
pub proof fn lemma_flags_round_trip(f: AddMulFlags)
    requires
        f.wf(),
    ensures
        0 <= encode_flags(f) < FLAG_BASES_PRODUCT,
        decode_flags(encode_flags(f)) == f,
{
}

/// Encoding undoes decoding on every word below the product of the
/// bases; words at or above it keep a nonzero remainder after all five
/// divisions and are malformed.
pub proof fn lemma_flags_complete(w: int)
    requires
        0 <= w < FLAG_BASES_PRODUCT,
    ensures
        decode_flags(w).wf(),
        encode_flags(decode_flags(w)) == w,
{
}

/// Quotient and remainder of a trace value by a fixed base.
pub fn divmod(x: M31, divisor: u32) -> (r: (M31, M31))
    requires
        x.wf(),
        divisor > 0,
    ensures
        r.0.value == x.value / divisor,
        r.1.value == x.value % divisor,
        r.0.wf(),
        r.1.wf(),
{
    proof {
        vstd::arithmetic::div_mod::lemma_mod_decreases(x.value as nat, divisor as nat);
    }
    (M31 { value: x.value / divisor }, M31 { value: x.value % divisor })
}

/// An error of the trace generator: the instruction word at the current
/// program counter does not decode to a legal flag tuple.
#[derive(Clone, Copy, PartialEq, Eq, Structural, Debug)]
pub struct FlagDecodeError {
    /// The word that failed to decode.
    pub word: u32,
}

/// Decode an instruction word into the add/mul flag tuple by sequential
/// division, rejecting any word with a nonzero final remainder.
pub fn decode_word(word: M31) -> (r: Result<AddMulFlags, FlagDecodeError>)
    requires
        word.wf(),
    ensures
        match r {
            Ok(f) => word.value < FLAG_BASES_PRODUCT && f == decode_flags(word.value as int)
                && f.wf() && encode_flags(f) == word.value,
            Err(e) => word.value >= FLAG_BASES_PRODUCT && e.word == word.value,
        },
{
    let (w, is_mul) = divmod(word, 2);
    let (w, reg0) = divmod(w, 2);
    let (w, reg1) = divmod(w, 3);
    let (w, reg2) = divmod(w, 2);
    let (w, appp) = divmod(w, 2);
    if w.value != 0 {
        return Err(FlagDecodeError { word: word.value });
    }
    let flags = AddMulFlags {
        is_mul: is_mul.value,
        reg0: reg0.value,
        reg1: reg1.value,
        reg2: reg2.value,
        appp: appp.value,
    };
    proof {
        lemma_flags_complete(word.value as int);
        assert(flags == decode_flags(word.value as int));
    }
    Ok(flags)
}

/// The instruction word of a flag tuple, as a trace value.
pub fn encode_word(f: AddMulFlags) -> (r: M31)
    requires
        f.wf(),
    ensures
        r.value == encode_flags(f),
        r.wf(),
{
    M31 { value: f.is_mul + 2 * f.reg0 + 4 * f.reg1 + 12 * f.reg2 + 24 * f.appp }
}

/// The closed interpolation form over the points `{0, 1, 2}`, built
/// from Lagrange factors and the inverse of two.
pub open spec fn select_trit_poly(trit: M31, a: M31, b: M31, c: M31) -> M31 {
    let tm1 = m_sub(trit, M31 { value: 1 });
    let tm2 = m_sub(trit, M31 { value: 2 });
    let term_a = m_mul(m_mul(m_mul(M31 { value: 0x4000_0000 }, tm1), tm2), a);
    let term_b = m_mul(m_mul(trit, tm2), b);
    let term_c = m_mul(m_mul(m_mul(M31 { value: 0x4000_0000 }, trit), tm1), c);
    m_add(m_sub(term_a, term_b), term_c)
}

/// Degree-2 interpolation over the points `{0, 1, 2}`: returns `a` when
/// `trit = 0`, `b` when `trit = 1` and `c` when `trit = 2`, by the
/// closed form built from Lagrange factors and the inverse of two.
pub fn select_trit(trit: M31, a: M31, b: M31, c: M31) -> (r: M31)
    requires
        trit.wf(),
        a.wf(),
        b.wf(),
        c.wf(),
        trit.value <= 2,
    ensures
        r.wf(),
        r == select_trit_poly(trit, a, b, c),
        trit.value == 0 ==> r == a,
        trit.value == 1 ==> r == b,
        trit.value == 2 ==> r == c,
{
    let one = M31 { value: 1 };
    let two = M31 { value: 2 };
    let two_inv = M31 { value: 0x4000_0000 };
    let tm1 = trit.sub(one);
    let tm2 = trit.sub(two);
    let term_a = two_inv.mul(tm1).mul(tm2).mul(a);
    let term_b = trit.mul(tm2).mul(b);
    let term_c = two_inv.mul(trit).mul(tm1).mul(c);
    let r = term_a.sub(term_b).add(term_c);
    proof {
        lemma_select_trit_cases(trit, a, b, c, tm1, tm2, term_a, term_b, term_c, r);
    }
    r
}

/// Evaluation of the interpolation formula at each of the three points.
proof fn lemma_select_trit_cases(
    trit: M31,
    a: M31,
    b: M31,
    c: M31,
    tm1: M31,
    tm2: M31,
    term_a: M31,
    term_b: M31,
    term_c: M31,
    r: M31,
)
    requires
        trit.wf(),
        a.wf(),
        b.wf(),
        c.wf(),
        trit.value <= 2,
        tm1 == m_sub(trit, M31 { value: 1 }),
        tm2 == m_sub(trit, M31 { value: 2 }),
        term_a == m_mul(m_mul(m_mul(M31 { value: 0x4000_0000 }, tm1), tm2), a),
        term_b == m_mul(m_mul(trit, tm2), b),
        term_c == m_mul(m_mul(m_mul(M31 { value: 0x4000_0000 }, trit), tm1), c),
        r == m_add(m_sub(term_a, term_b), term_c),
    ensures
        trit.value == 0 ==> r == a,
        trit.value == 1 ==> r == b,
        trit.value == 2 ==> r == c,
{
    let p = P as int;
    vstd::arithmetic::div_mod::lemma_small_mod(a.value as nat, P as nat);
    vstd::arithmetic::div_mod::lemma_small_mod(b.value as nat, P as nat);
    vstd::arithmetic::div_mod::lemma_small_mod(c.value as nat, P as nat);
    if trit.value == 0 {
        // The scalar in front of `a` folds to one.
        assert(term_a.value == (a.value as int) % p) by {
            assert(tm1.value == p - 1);
            assert(tm2.value == p - 2);
            assert(m_mul(m_mul(M31 { value: 0x4000_0000 }, tm1), tm2).value == 1);
            assert(1 * a.value == a.value);
        }
        assert(term_b.value == 0) by {
            assert(m_mul(trit, tm2).value == 0);
            assert(0 * b.value == 0);
        }
        assert(term_c.value == 0) by {
            assert(m_mul(M31 { value: 0x4000_0000 }, trit).value == 0);
            assert(0 * tm1.value == 0);
            assert(0 * c.value == 0);
        }
        assert(r == a);
    } else if trit.value == 1 {
        assert(term_a.value == 0) by {
            assert(tm1.value == 0);
            assert(m_mul(M31 { value: 0x4000_0000 }, tm1).value == 0);
            assert(0 * tm2.value == 0);
            assert(0 * a.value == 0);
        }
        // The scalar in front of `b` folds to minus one.
        assert(term_b.value == ((p - 1) * b.value) % p) by {
            assert(tm2.value == p - 1);
            assert(m_mul(trit, tm2).value == p - 1) by {
                assert(1 * (p - 1) == p - 1);
            }
        }
        assert(term_c.value == 0) by {
            assert(m_mul(M31 { value: 0x4000_0000 }, trit).value == 0x4000_0000);
            assert(m_mul(m_mul(M31 { value: 0x4000_0000 }, trit), tm1).value == 0) by {
                assert(0x4000_0000 * tm1.value == 0);
            }
            assert(0 * c.value == 0);
        }
        // `0 - (-b) + 0` folds back to `b`.
        assert(((p - 1) * b.value) % p == (0 - b.value) % p) by {
            vstd::arithmetic::div_mod::lemma_mod_multiples_vanish(
                b.value as int,
                0 - b.value,
                p,
            );
            assert(p * b.value + (0 - b.value) == (p - 1) * b.value) by (nonlinear_arith);
        }
        if b.value == 0 {
            assert(r == b);
        } else {
            assert((0 - b.value) % p == p - b.value);
            assert(term_b.value == p - b.value);
            assert(m_sub(term_a, term_b).value == (0 - (p - b.value)) % p);
            vstd::arithmetic::div_mod::lemma_mod_add_multiples_vanish(
                b.value - p,
                p,
            );
            vstd::arithmetic::div_mod::lemma_small_mod(b.value as nat, P as nat);
            assert(m_sub(term_a, term_b).value == b.value);
            assert(r == b);
        }
    } else {
        assert(term_a.value == 0) by {
            assert(tm2.value == 0);
            assert(m_mul(m_mul(M31 { value: 0x4000_0000 }, tm1), tm2).value == 0) by {
                assert(m_mul(M31 { value: 0x4000_0000 }, tm1).value * 0 == 0);
            }
            assert(0 * a.value == 0);
        }
        assert(term_b.value == 0) by {
            assert(m_mul(trit, tm2).value == 0) by {
                assert(2 * tm2.value == 0);
            }
            assert(0 * b.value == 0);
        }
        // The scalar in front of `c` folds to one.
        assert(term_c.value == (c.value as int) % p) by {
            assert(m_mul(M31 { value: 0x4000_0000 }, trit).value == 1);
            assert(tm1.value == 1);
            assert(m_mul(m_mul(M31 { value: 0x4000_0000 }, trit), tm1).value == 1);
            assert(1 * c.value == c.value);
        }
        assert(r == c);
    }
}

} // verus!
