//! The memory component: a dense id-to-value table with per-id usage
//! multiplicities.
//!
//! It is the single supply side of the memory lookup: its one relation
//! entry per row carries coefficient minus-multiplicity, balancing the
//! positive entries every opcode component emits for its reads. The
//! multiplicities are counted while the opcode components generate
//! their traces, and consumed once when this component's trace is
//! written — strictly after all opcodes have registered their reads.

use vstd::prelude::*;

use vstd::arithmetic::power2::pow2;

use crate::channel::Transcript;
use crate::extension::{q_from_m31, q_neg, q_zero, QM31};
use crate::field::{m31_of, M31};
use crate::logup::{add_frac, frac_sum};
use crate::mem::Memory;
use crate::relations::{spec_combine, Relation};
use crate::util::{next_power_of_two, repeat_u32};

verus! {

/// Number of id columns.
pub const MEMORY_ID_SIZE: usize = 1;

/// Number of value columns.
pub const VALUE_SIZE: usize = 4;

/// Number of id and value columns together.
pub const N_ADDR_AND_VALUE_COLUMNS: usize = 5;

/// Index of the multiplicity column.
pub const MULTIPLICITY_COLUMN_OFFSET: usize = 5;

/// Number of multiplicity columns.
pub const N_MULTIPLICITY_COLUMNS: usize = 1;

/// Total number of main-trace columns.
pub const N_COLUMNS: usize = 6;

/// Number of base-field coordinates of a secure-field element.
pub const SECURE_EXTENSION_DEGREE: usize = 4;

/// Log of the largest table this component accepts.
pub const LOG_MEMORY_ADDRESS_BOUND: u32 = 20;

/// The largest table this component accepts.
pub const MEMORY_ADDRESS_BOUND: usize = 0x10_0000;

/// The table this component serves from a built memory image: the
/// value of each address in order, padded with zero to the next power
/// of two.
pub open spec fn table_values(mem: Memory) -> Seq<QM31> {
    let n = mem.address_to_value_index@.len();
    Seq::new(
        pow2(crate::util::padded_log(n)),
        |i: int|
            if i < n {
                mem.f31_values@[mem.address_to_value_index@[i] as int]
            } else {
                q_zero()
            },
    )
}

/// The lookup tuple of one table row: the id then the four value
/// coordinates.
pub open spec fn mem_tuple(id: M31, value: QM31) -> Seq<M31> {
    seq![id, value.a.a, value.a.b, value.b.a, value.b.b]
}

/// The signed fractions this component contributes: for each row, the
/// coefficient is minus its multiplicity and the denominator is its
/// folded lookup tuple.
pub open spec fn mem_terms(rel: Relation, rows: Seq<(M31, QM31)>, mults: Seq<M31>) -> Seq<
    (QM31, QM31),
> {
    Seq::new(
        rows.len(),
        |i: int|
            (
                q_neg(q_from_m31(mults[i])),
                spec_combine(rel, mem_tuple(rows[i].0, rows[i].1)),
            ),
    )
}

/// The public statement of this component's trace shape.
#[derive(Clone, Copy, PartialEq, Eq, Structural, Debug)]
pub struct Claim {
    /// Log of the number of table rows.
    pub log_size: u32,
}

impl Claim {
    /// The log heights of this component's columns, by commitment
    /// phase: main columns, interaction columns, then the fixed column.
    pub fn log_sizes(&self) -> (r: Vec<Vec<u32>>)
        ensures
            r@.len() == 3,
            r@[0].len() == N_COLUMNS && r@[1].len() == SECURE_EXTENSION_DEGREE && r@[2].len()
                == 1,
            forall|t: int, i: int|
                0 <= t < 3 && 0 <= i < r@[t].len() ==> r@[t][i] == self.log_size,
    {
        let mut r: Vec<Vec<u32>> = Vec::new();
        r.push(repeat_u32(self.log_size, N_COLUMNS));
        r.push(repeat_u32(self.log_size, SECURE_EXTENSION_DEGREE));
        r.push(repeat_u32(self.log_size, 1));
        r
    }

    /// Feed the claim's canonical encoding to the transcript.
    pub fn mix_into(&self, channel: &mut Transcript)
        ensures
            final(channel).data@ == old(channel).data@.push(self.log_size as u64),
    {
        channel.mix_u64(self.log_size as u64);
    }
}

/// The public statement of this component's lookup total.
#[derive(Clone, Copy, PartialEq, Eq, Structural, Debug)]
pub struct InteractionClaim {
    /// The total of the signed lookup fractions this component emits.
    pub claimed_sum: QM31,
}

impl InteractionClaim {
    /// Feed the claim's canonical encoding to the transcript.
    pub fn mix_into(&self, channel: &mut Transcript)
        ensures
            final(channel).data@ == old(channel).data@ + seq![
                self.claimed_sum.a.a.value as u64,
                self.claimed_sum.a.b.value as u64,
                self.claimed_sum.b.a.value as u64,
                self.claimed_sum.b.b.value as u64,
            ],
    {
        channel.mix_felt(self.claimed_sum);
    }
}

/// The constraint-side description of the component.
pub struct Eval {
    /// Log of the number of table rows.
    pub log_n_rows: u32,
    /// The memory relation shared with the opcode components.
    pub lookup_elements: Relation,
    /// The total this component claims for its lookup fractions.
    pub claimed_sum: QM31,
}

impl Eval {
    /// The number of main-trace columns.
    pub fn n_columns(&self) -> (r: usize)
        ensures
            r == N_COLUMNS,
    {
        N_COLUMNS
    }

    /// Assemble the component description from its public claims and
    /// the drawn relation.
    pub fn new(claim: Claim, lookup_elements: Relation, interaction_claim: InteractionClaim) -> (r:
        Eval)
        ensures
            r.log_n_rows == claim.log_size,
            r.lookup_elements == lookup_elements,
            r.claimed_sum == interaction_claim.claimed_sum,
    {
        Eval {
            log_n_rows: claim.log_size,
            lookup_elements,
            claimed_sum: interaction_claim.claimed_sum,
        }
    }

    /// The log height of the component's trace.
    pub fn log_size(&self) -> (r: u32)
        ensures
            r == self.log_n_rows,
    {
        self.log_n_rows
    }

    /// The highest constraint degree, as a log bound.
    pub fn max_constraint_log_degree_bound(&self) -> (r: u32)
        requires
            self.log_n_rows < u32::MAX,
        ensures
            r == self.log_n_rows + 1,
    {
        self.log_n_rows + 1
    }

    /// Evaluate the component on one row of its main trace: it asserts
    /// nothing algebraically and emits one relation entry, whose
    /// coefficient is minus the row's multiplicity and whose tuple is
    /// the row's id and value coordinates.
    pub fn evaluate(&self, row: &Vec<M31>) -> (r: (QM31, QM31))
        requires
            self.lookup_elements.wf(),
            self.lookup_elements.alpha_powers@.len() >= N_ADDR_AND_VALUE_COLUMNS,
            row@.len() == N_COLUMNS,
            forall|i: int| 0 <= i < row@.len() ==> (#[trigger] row@[i]).wf(),
        ensures
            r.0 == q_neg(q_from_m31(row@[MULTIPLICITY_COLUMN_OFFSET as int])),
            r.1 == spec_combine(self.lookup_elements, row@.subrange(0, 5)),
            r.0.wf(),
            r.1.wf(),
    {
        let mut id_and_value: Vec<M31> = Vec::new();
        let mut i: usize = 0;
        while i < N_ADDR_AND_VALUE_COLUMNS
            invariant
                i <= 5,
                row@.len() == N_COLUMNS,
                forall|j: int| 0 <= j < row@.len() ==> (#[trigger] row@[j]).wf(),
                id_and_value@ == row@.subrange(0, i as int),
            decreases 5 - i,
        {
            let ghost prefix = id_and_value@;
            id_and_value.push(row[i]);
            proof {
                assert(id_and_value@ =~= row@.subrange(0, i + 1));
            }
            i = i + 1;
        }
        let multiplicity = row[MULTIPLICITY_COLUMN_OFFSET];
        let coef = QM31::from_m31(multiplicity).neg();
        let denom = self.lookup_elements.combine(&id_and_value);
        (coef, denom)
    }
}

/// One multiplicity counter raised by one.
pub open spec fn bump(s: Seq<u32>, i: int) -> Seq<u32> {
    s.update(i, (s[i] + 1) as u32)
}

/// A sequence of lookups applied to the multiplicity counters, in
/// order.
pub open spec fn apply_lookups(s: Seq<u32>, lookups: Seq<int>) -> Seq<u32>
    decreases lookups.len(),
{
    if lookups.len() == 0 {
        s
    } else {
        bump(apply_lookups(s, lookups.drop_last()), lookups.last())
    }
}

/// How many times `j` occurs in the lookup sequence.
pub open spec fn occurrences(lookups: Seq<int>, j: int) -> nat
    decreases lookups.len(),
{
    if lookups.len() == 0 {
        0
    } else {
        occurrences(lookups.drop_last(), j) + (if lookups.last() == j {
            1nat
        } else {
            0nat
        })
    }
}

/// Multiplicity accounting: after a sequence of lookups is registered,
/// each id's counter holds its previous value plus the number of
/// lookups that hit it, and the table size is unchanged.
pub proof fn lemma_multiplicity_accounting(s: Seq<u32>, lookups: Seq<int>, j: int)
    requires
        forall|k: int| 0 <= k < lookups.len() ==> 0 <= #[trigger] lookups[k] < s.len(),
        0 <= j < s.len(),
        s[j] + occurrences(lookups, j) <= u32::MAX,
    ensures
        apply_lookups(s, lookups).len() == s.len(),
        apply_lookups(s, lookups)[j] == s[j] + occurrences(lookups, j),
    decreases lookups.len(),
{
    lemma_apply_lookups_len(s, lookups);
    if lookups.len() > 0 {
        let prefix = lookups.drop_last();
        assert(forall|k: int| 0 <= k < prefix.len() ==> 0 <= #[trigger] prefix[k] < s.len());
        assert(occurrences(prefix, j) <= occurrences(lookups, j));
        lemma_multiplicity_accounting(s, prefix, j);
        lemma_apply_lookups_len(s, prefix);
    }
}

/// No id occurs more often than there are lookups.
pub proof fn lemma_occurrences_bound(lookups: Seq<int>, j: int)
    ensures
        occurrences(lookups, j) <= lookups.len(),
    decreases lookups.len(),
{
    if lookups.len() > 0 {
        lemma_occurrences_bound(lookups.drop_last(), j);
    }
}

/// Lookups can be registered in two batches.
pub proof fn lemma_apply_lookups_concat(s: Seq<u32>, a: Seq<int>, b: Seq<int>)
    ensures
        apply_lookups(s, a + b) == apply_lookups(apply_lookups(s, a), b),
    decreases b.len(),
{
    if b.len() == 0 {
        assert(a + b =~= a);
    } else {
        lemma_apply_lookups_concat(s, a, b.drop_last());
        assert((a + b).drop_last() =~= a + b.drop_last());
        assert((a + b).last() == b.last());
    }
}

/// Three lookups registered in a row are three single bumps.
pub proof fn lemma_apply_lookups_three(s: Seq<u32>, a1: int, a2: int, a3: int)
    ensures
        apply_lookups(s, seq![a1, a2, a3]) == bump(bump(bump(s, a1), a2), a3),
{
    assert(seq![a1].drop_last() =~= Seq::<int>::empty());
    assert(seq![a1, a2].drop_last() =~= seq![a1]);
    assert(seq![a1, a2, a3].drop_last() =~= seq![a1, a2]);
    assert(apply_lookups(s, Seq::<int>::empty()) == s);
    assert(apply_lookups(s, seq![a1]) == bump(s, a1));
    assert(apply_lookups(s, seq![a1, a2]) == bump(apply_lookups(s, seq![a1]), a2));
    assert(apply_lookups(s, seq![a1, a2, a3]) == bump(apply_lookups(s, seq![a1, a2]), a3));
}

/// Four lookups registered in a row are four single bumps.
pub proof fn lemma_apply_lookups_four(s: Seq<u32>, a1: int, a2: int, a3: int, a4: int)
    ensures
        apply_lookups(s, seq![a1, a2, a3, a4]) == bump(bump(bump(bump(s, a1), a2), a3), a4),
{
    lemma_apply_lookups_three(s, a1, a2, a3);
    assert(seq![a1, a2, a3, a4].drop_last() =~= seq![a1, a2, a3]);
    assert(apply_lookups(s, seq![a1, a2, a3, a4]) == bump(
        apply_lookups(s, seq![a1, a2, a3]),
        a4,
    ));
}

/// Registering lookups never changes the table size.
pub proof fn lemma_apply_lookups_len(s: Seq<u32>, lookups: Seq<int>)
    requires
        forall|k: int| 0 <= k < lookups.len() ==> 0 <= #[trigger] lookups[k] < s.len(),
    ensures
        apply_lookups(s, lookups).len() == s.len(),
    decreases lookups.len(),
{
    if lookups.len() > 0 {
        assert(forall|k: int|
            0 <= k < lookups.drop_last().len() ==> 0 <= #[trigger] lookups.drop_last()[k]
                < s.len());
        lemma_apply_lookups_len(s, lookups.drop_last());
        assert(apply_lookups(s, lookups) == bump(
            apply_lookups(s, lookups.drop_last()),
            lookups.last(),
        ));
    }
}

/// Builds the memory component's trace: the table values by id, and
/// the usage counters that opcode components raise as they register
/// their reads.
pub struct ClaimGenerator {
    /// The table values, padded with zero to a power-of-two height.
    pub values: Vec<QM31>,
    /// One usage counter per table row.
    pub multiplicities: Vec<u32>,
}

impl ClaimGenerator {
    /// One counter per row, a power-of-two height, reduced values.
    pub open spec fn wf(self) -> bool {
        &&& self.values@.len() == self.multiplicities@.len()
        &&& 1 <= self.values@.len() <= MEMORY_ADDRESS_BOUND
        &&& exists|lg: nat| (#[trigger] pow2(lg)) == self.values@.len()
        &&& forall|i: int| 0 <= i < self.values@.len() ==> (#[trigger] self.values@[i]).wf()
    }

    /// Read the table from a built memory image: the value of each
    /// address in order, padded with zero to the next power of two,
    /// with every counter at zero.
    pub fn new(mem: &Memory) -> (r: ClaimGenerator)
        requires
            mem.wf(),
            1 <= mem.address_to_value_index@.len() <= MEMORY_ADDRESS_BOUND,
        ensures
            r.wf(),
            r.values@.len() >= mem.address_to_value_index@.len(),
            forall|i: int|
                0 <= i < mem.address_to_value_index@.len() ==> (#[trigger] r.values@[i])
                    == mem.f31_values@[mem.address_to_value_index@[i] as int],
            forall|i: int|
                mem.address_to_value_index@.len() <= i < r.values@.len() ==> (
                #[trigger] r.values@[i]) == q_zero(),
            forall|i: int|
                0 <= i < r.multiplicities@.len() ==> (#[trigger] r.multiplicities@[i]) == 0u32,
            r.values@.len() < 2 * mem.address_to_value_index@.len(),
            r.values@ == table_values(*mem),
            r.multiplicities@ == Seq::new(table_values(*mem).len(), |i: int| 0u32),
    {
        let padded = mem.iter_values();
        let mut values: Vec<QM31> = Vec::new();
        let mut multiplicities: Vec<u32> = Vec::new();
        let mut i: usize = 0;
        let n = padded.len();
        while i < n
            invariant
                i <= n,
                n == padded@.len(),
                values@.len() == i,
                multiplicities@.len() == i,
                forall|j: int| 0 <= j < i ==> (#[trigger] values@[j]) == padded@[j].0,
                forall|j: int| 0 <= j < i ==> (#[trigger] multiplicities@[j]) == 0u32,
            decreases n - i,
        {
            values.push(padded[i].0);
            multiplicities.push(0u32);
            i = i + 1;
        }
        proof {
            let n0 = mem.address_to_value_index@.len();
            let lg = choose|lg: nat|
                (#[trigger] pow2(lg)) == padded@.len() && (lg > 0 ==> pow2((lg - 1) as nat)
                    < mem.address_to_value_index@.len());
            assert(pow2(lg) == values@.len());
            vstd::arithmetic::power2::lemma2_to64();
            if lg > 0 {
                vstd::arithmetic::power2::lemma_pow2_unfold(lg);
                assert(values@.len() < 2 * n0);
                if lg - 1 >= 20 {
                    if lg - 1 > 20 {
                        vstd::arithmetic::power2::lemma_pow2_strictly_increases(
                            20,
                            (lg - 1) as nat,
                        );
                    }
                    assert(pow2((lg - 1) as nat) >= pow2(20));
                    assert(false);
                }
                if lg < 20 {
                    vstd::arithmetic::power2::lemma_pow2_strictly_increases(lg, 20);
                }
                assert(values@.len() <= MEMORY_ADDRESS_BOUND);
            }
            crate::util::lemma_padded_log(n0, lg);
            assert(values@ =~= table_values(*mem));
            assert(multiplicities@ =~= Seq::new(table_values(*mem).len(), |i: int| 0u32));
        }
        ClaimGenerator { values, multiplicities }
    }

    /// The value stored at a table row.
    pub fn deduce_output(&self, addr: M31) -> (r: QM31)
        requires
            self.wf(),
            addr.value < self.values@.len(),
        ensures
            r == self.values@[addr.value as int],
            r.wf(),
    {
        self.values[addr.value as usize]
    }

    /// Register one lookup of a table row: its counter rises by one.
    pub fn add_inputs(&mut self, memory_index: usize)
        requires
            old(self).wf(),
            memory_index < old(self).multiplicities@.len(),
            old(self).multiplicities@[memory_index as int] < u32::MAX,
        ensures
            final(self).wf(),
            final(self).multiplicities@ == bump(old(self).multiplicities@, memory_index as int),
            final(self).values == old(self).values,
    {
        let current = self.multiplicities[memory_index];
        self.multiplicities[memory_index] = current + 1;
    }

    /// Write the component's main trace: the id column, the four value
    /// coordinate columns and the multiplicity column, and hand the
    /// lookup data on for the interaction trace.
    pub fn write_trace(&self) -> (r: (Claim, Vec<Vec<M31>>, InteractionClaimGenerator))
        requires
            self.wf(),
        ensures
            pow2(r.0.log_size as nat) == self.values@.len(),
            r.1@.len() == N_COLUMNS,
            forall|c: int| 0 <= c < N_COLUMNS ==> (#[trigger] r.1@[c])@.len() == self.values@.len(),
            forall|i: int|
                0 <= i < self.values@.len() ==> (#[trigger] r.1@[0]@[i]) == m31_of(i),
            forall|i: int|
                0 <= i < self.values@.len() ==> (#[trigger] r.1@[1]@[i]) == self.values@[i].a.a,
            forall|i: int|
                0 <= i < self.values@.len() ==> (#[trigger] r.1@[2]@[i]) == self.values@[i].a.b,
            forall|i: int|
                0 <= i < self.values@.len() ==> (#[trigger] r.1@[3]@[i]) == self.values@[i].b.a,
            forall|i: int|
                0 <= i < self.values@.len() ==> (#[trigger] r.1@[4]@[i]) == self.values@[i].b.b,
            forall|i: int|
                0 <= i < self.values@.len() ==> (#[trigger] r.1@[5]@[i]) == m31_of(
                    self.multiplicities@[i] as int,
                ),
            r.2.wf(),
            r.2.ids_and_values@.len() == self.values@.len(),
            forall|i: int|
                0 <= i < self.values@.len() ==> (#[trigger] r.2.ids_and_values@[i]) == (
                m31_of(i),
                self.values@[i],
            ),
            forall|i: int|
                0 <= i < self.values@.len() ==> (#[trigger] r.2.multiplicities@[i]) == m31_of(
                    self.multiplicities@[i] as int,
                ),
    {
        let n = self.values.len();
        let (size, log) = next_power_of_two(n);
        proof {
            let lg = choose|lg: nat| (#[trigger] pow2(lg)) == self.values@.len();
            crate::util::lemma_pow2_exact(n as nat, lg, log as nat);
        }
        let mut col_id: Vec<M31> = Vec::new();
        let mut col_v0: Vec<M31> = Vec::new();
        let mut col_v1: Vec<M31> = Vec::new();
        let mut col_v2: Vec<M31> = Vec::new();
        let mut col_v3: Vec<M31> = Vec::new();
        let mut col_mult: Vec<M31> = Vec::new();
        let mut ids_and_values: Vec<(M31, QM31)> = Vec::new();
        let mut mults: Vec<M31> = Vec::new();
        let mut i: usize = 0;
        while i < n
            invariant
                self.wf(),
                i <= n,
                n == self.values@.len(),
                col_id@.len() == i && col_v0@.len() == i && col_v1@.len() == i && col_v2@.len()
                    == i && col_v3@.len() == i && col_mult@.len() == i && ids_and_values@.len()
                    == i && mults@.len() == i,
                forall|j: int| 0 <= j < i ==> (#[trigger] col_id@[j]) == m31_of(j),
                forall|j: int| 0 <= j < i ==> (#[trigger] col_v0@[j]) == self.values@[j].a.a,
                forall|j: int| 0 <= j < i ==> (#[trigger] col_v1@[j]) == self.values@[j].a.b,
                forall|j: int| 0 <= j < i ==> (#[trigger] col_v2@[j]) == self.values@[j].b.a,
                forall|j: int| 0 <= j < i ==> (#[trigger] col_v3@[j]) == self.values@[j].b.b,
                forall|j: int|
                    0 <= j < i ==> (#[trigger] col_mult@[j]) == m31_of(
                        self.multiplicities@[j] as int,
                    ),
                forall|j: int|
                    0 <= j < i ==> (#[trigger] ids_and_values@[j]) == (
                    m31_of(j),
                    self.values@[j],
                ),
                forall|j: int|
                    0 <= j < i ==> (#[trigger] mults@[j]) == m31_of(
                        self.multiplicities@[j] as int,
                    ),
            decreases n - i,
        {
            let id = M31::new(i as u32);
            let value = self.values[i];
            let mult = M31::new(self.multiplicities[i]);
            col_id.push(id);
            col_v0.push(value.a.a);
            col_v1.push(value.a.b);
            col_v2.push(value.b.a);
            col_v3.push(value.b.b);
            col_mult.push(mult);
            ids_and_values.push((id, value));
            mults.push(mult);
            proof {
                assert(i < MEMORY_ADDRESS_BOUND);
                vstd::arithmetic::div_mod::lemma_small_mod(i as nat, crate::field::P as nat);
            }
            i = i + 1;
        }
        let mut trace: Vec<Vec<M31>> = Vec::new();
        trace.push(col_id);
        trace.push(col_v0);
        trace.push(col_v1);
        trace.push(col_v2);
        trace.push(col_v3);
        trace.push(col_mult);
        (
            Claim { log_size: log },
            trace,
            InteractionClaimGenerator { ids_and_values, multiplicities: mults },
        )
    }
}

/// Builds the memory component's interaction trace: one signed
/// fraction per table row.
pub struct InteractionClaimGenerator {
    /// The id and value of each row, in order.
    pub ids_and_values: Vec<(M31, QM31)>,
    /// The multiplicity of each row, as a trace value.
    pub multiplicities: Vec<M31>,
}

impl InteractionClaimGenerator {
    /// One multiplicity per row, reduced coordinates.
    pub open spec fn wf(self) -> bool {
        &&& self.ids_and_values@.len() == self.multiplicities@.len()
        &&& forall|i: int|
            0 <= i < self.ids_and_values@.len() ==> (#[trigger] self.ids_and_values@[i]).0.wf()
                && self.ids_and_values@[i].1.wf()
        &&& forall|i: int|
            0 <= i < self.multiplicities@.len() ==> (#[trigger] self.multiplicities@[i]).wf()
    }

    /// An empty generator.
    pub fn with_capacity(capacity: usize) -> (r: InteractionClaimGenerator)
        ensures
            r.wf(),
            r.ids_and_values@.len() == 0,
    {
        let r = InteractionClaimGenerator {
            ids_and_values: Vec::new(),
            multiplicities: Vec::new(),
        };
        r
    }

    /// Total the component's signed lookup fractions: for each row,
    /// minus its multiplicity over its folded tuple.
    #[verifier::rlimit(60)]
    #[verifier::spinoff_prover]
    pub fn write_interaction_trace(&self, lookup_elements: &Relation) -> (r: InteractionClaim)
        requires
            self.wf(),
            lookup_elements.wf(),
            lookup_elements.alpha_powers@.len() >= N_ADDR_AND_VALUE_COLUMNS,
        ensures
            r.claimed_sum == frac_sum(
                mem_terms(*lookup_elements, self.ids_and_values@, self.multiplicities@),
            ),
            r.claimed_sum.wf(),
    {
        let ghost terms = mem_terms(*lookup_elements, self.ids_and_values@, self.multiplicities@);
        let mut acc = QM31::zero();
        let mut i: usize = 0;
        let n = self.ids_and_values.len();
        proof {
            assert(terms.subrange(0, 0) =~= Seq::<(QM31, QM31)>::empty());
        }
        while i < n
            invariant
                self.wf(),
                lookup_elements.wf(),
                lookup_elements.alpha_powers@.len() >= N_ADDR_AND_VALUE_COLUMNS,
                i <= n,
                n == self.ids_and_values@.len(),
                terms == mem_terms(*lookup_elements, self.ids_and_values@, self.multiplicities@),
                acc == frac_sum(terms.subrange(0, i as int)),
                acc.wf(),
            decreases n - i,
        {
            let (id, value) = self.ids_and_values[i];
            let mult = self.multiplicities[i];
            let mut tuple: Vec<M31> = Vec::new();
            tuple.push(id);
            tuple.push(value.a.a);
            tuple.push(value.a.b);
            tuple.push(value.b.a);
            tuple.push(value.b.b);
            proof {
                assert(tuple@ =~= mem_tuple(id, value));
            }
            let coef = QM31::from_m31(mult).neg();
            let denom = lookup_elements.combine(&tuple);
            acc = add_frac(acc, coef, denom);
            proof {
                assert(terms.subrange(0, i + 1).drop_last() =~= terms.subrange(0, i as int));
                assert(terms.subrange(0, i + 1).last() == terms[i as int]);
            }
            i = i + 1;
        }
        proof {
            assert(terms.subrange(0, n as int) =~= terms);
        }
        InteractionClaim { claimed_sum: acc }
    }
}

} // verus!
