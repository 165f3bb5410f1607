//! Small numeric helpers shared across the crate.

use vstd::prelude::*;

use vstd::arithmetic::power2::pow2;

verus! {

/// Convert a count to `u32`; the count must fit.
pub fn u32_from_usize(value: usize) -> (r: u32)
    requires
        value <= u32::MAX,
    ensures
        r == value,
{
    value as u32
}

/// Convert a `u32` to a count; always fits.
pub fn usize_from_u32(value: u32) -> (r: usize)
    ensures
        r == value,
{
    value as usize
}

/// Grow the vector so that `index` is in bounds, filling new slots with
/// the default value; growth at least doubles the length.
pub fn maybe_resize<T: Copy>(vector: &mut Vec<T>, index: usize, default_value: T)
    requires
        index < usize::MAX,
        old(vector).len() <= usize::MAX / 2,
    ensures
        final(vector)@.len() == (if index < old(vector)@.len() {
            old(vector)@.len() as int
        } else if index + 1 > 2 * old(vector)@.len() {
            index + 1
        } else {
            2 * old(vector)@.len() as int
        }),
        forall|i: int| 0 <= i < old(vector)@.len() ==> final(vector)@[i] == old(vector)@[i],
        forall|i: int|
            old(vector)@.len() <= i < final(vector)@.len() ==> final(vector)@[i] == default_value,
{
    let n_elements: usize = vector.len();
    if index >= n_elements {
        let doubled: usize = n_elements * 2;
        let resize_by: usize = if index + 1 > doubled {
            index + 1
        } else {
            doubled
        };
        while vector.len() < resize_by
            invariant
                n_elements <= vector.len() <= resize_by,
                forall|i: int| 0 <= i < n_elements ==> vector@[i] == old(vector)@[i],
                forall|i: int| n_elements <= i < vector@.len() ==> vector@[i] == default_value,
            decreases resize_by - vector.len(),
        {
            vector.push(default_value);
        }
    }
}

/// The exponent of the least power of two at or above `n`.
pub open spec fn padded_log(n: nat) -> nat
    decreases n,
{
    if n <= 1 {
        0
    } else {
        1 + padded_log(((n + 1) / 2) as nat)
    }
}

/// The least-power-of-two exponent is pinned by its two inequalities.
pub proof fn lemma_padded_log(n: nat, log: nat)
    requires
        n >= 1,
        pow2(log) >= n,
        log > 0 ==> pow2((log - 1) as nat) < n,
    ensures
        log == padded_log(n),
    decreases n,
{
    vstd::arithmetic::power2::lemma2_to64();
    if n == 1 {
        if log > 0 {
            vstd::arithmetic::power2::lemma_pow2_pos((log - 1) as nat);
            assert(false);
        }
    } else {
        if log == 0 {
            assert(pow2(0nat) == 1);
            assert(false);
        }
        let m = ((n + 1) / 2) as nat;
        vstd::arithmetic::power2::lemma_pow2_unfold(log);
        assert(2 * pow2((log - 1) as nat) >= n);
        assert(pow2((log - 1) as nat) >= m);
        if log - 1 > 0 {
            vstd::arithmetic::power2::lemma_pow2_unfold((log - 1) as nat);
            assert(2 * pow2((log - 2) as nat) < n);
            assert(pow2((log - 2) as nat) < m);
        }
        lemma_padded_log(m, (log - 1) as nat);
    }
}

/// The least power of two at or above `n`, with its exponent.
pub fn next_power_of_two(n: usize) -> (r: (usize, u32))
    requires
        1 <= n <= usize::MAX / 2 + 1,
    ensures
        r.0 == pow2(r.1 as nat),
        r.0 >= n,
        r.1 > 0 ==> pow2((r.1 - 1) as nat) < n,
        r.1 as nat == padded_log(n as nat),
{
    let mut log: u32 = 0;
    let mut size: usize = 1;
    proof {
        vstd::arithmetic::power2::lemma2_to64();
    }
    while size < n
        invariant
            1 <= n <= usize::MAX / 2 + 1,
            size == pow2(log as nat),
            log > 0 ==> pow2((log - 1) as nat) < n,
            log <= 63,
        decreases 64 - log,
    {
        proof {
            vstd::arithmetic::power2::lemma2_to64();
            vstd::arithmetic::power2::lemma2_to64_rest();
            if log == 63 {
                assert(false);
            }
            assert(pow2((log + 1) as nat) == 2 * pow2(log as nat)) by {
                vstd::arithmetic::power2::lemma_pow2_unfold((log + 1) as nat);
            }
        }
        size = size * 2;
        log = log + 1;
    }
    proof {
        lemma_padded_log(n as nat, log as nat);
    }
    (size, log)
}

/// The value `x` repeated `n` times.
pub open spec fn repeat_seq(x: u32, n: nat) -> Seq<u32> {
    Seq::new(n, |i: int| x)
}

/// Append one value `n` times.
pub fn push_repeat(v: &mut Vec<u32>, x: u32, n: usize)
    requires
        old(v)@.len() + n <= usize::MAX,
    ensures
        final(v)@ == old(v)@ + repeat_seq(x, n as nat),
{
    let mut i: usize = 0;
    while i < n
        invariant
            i <= n,
            v@.len() == old(v)@.len() + i,
            v@ == old(v)@ + repeat_seq(x, i as nat),
        decreases n - i,
    {
        v.push(x);
        proof {
            assert(v@ =~= old(v)@ + repeat_seq(x, (i + 1) as nat));
        }
        i = i + 1;
    }
}

/// A vector holding one value `n` times.
pub fn repeat_u32(value: u32, n: usize) -> (r: Vec<u32>)
    ensures
        r@.len() == n,
        forall|i: int| 0 <= i < n ==> (#[trigger] r@[i]) == value,
{
    let mut r: Vec<u32> = Vec::new();
    while r.len() < n
        invariant
            r@.len() <= n,
            forall|i: int| 0 <= i < r@.len() ==> (#[trigger] r@[i]) == value,
        decreases n - r.len(),
    {
        r.push(value);
    }
    r
}

/// A power of two at or above `n`, whose predecessor power is below
/// `n`, equals `n` whenever `n` is itself a power of two.
pub proof fn lemma_pow2_exact(n: nat, lg: nat, log: nat)
    requires
        pow2(lg) == n,
        pow2(log) >= n,
        log > 0 ==> pow2((log - 1) as nat) < n,
    ensures
        pow2(log) == n,
        log == lg,
{
    if log < lg {
        vstd::arithmetic::power2::lemma_pow2_strictly_increases(log, lg);
        assert(false);
    }
    if lg < log {
        if lg < log - 1 {
            vstd::arithmetic::power2::lemma_pow2_strictly_increases(lg, (log - 1) as nat);
        }
        assert(pow2((log - 1) as nat) >= n);
        assert(false);
    }
}

} // verus!
