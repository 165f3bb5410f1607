//! The ret opcode component.
//!
//! Each row takes one machine state `(pc, ap, fp)` and asserts, through
//! the memory relation, that the ret instruction word is stored at
//! `pc` and that the caller's frame pointer and return address are
//! stored at `fp - 2` and `fp - 1`. All three entries carry
//! coefficient one: the memory component supplies them with negative
//! weight.

use vstd::prelude::*;

use vstd::arithmetic::power2::pow2;

use crate::channel::Transcript;
use crate::components::addr_to_f31;
use crate::components::addr_to_f31::{apply_lookups, bump};
use crate::extension::{q_one, q_zero, QM31};
use crate::field::{m_sub, M31, P};
use crate::logup::{add_frac, frac_sum};
use crate::relations::{spec_combine, Relation};
use crate::state::VmState;
use crate::util::{next_power_of_two, repeat_u32};

verus! {

/// Number of main-trace columns: `pc`, `ap`, `fp` and the two values
/// read at `fp - 1` and `fp - 2`.
pub const RET_N_TRACE_CELLS: usize = 5;

/// The instruction word of the ret opcode.
pub const RET_INSTRUCTION: u32 = 171;

/// Number of base-field coordinates of a secure-field element.
pub const SECURE_EXTENSION_DEGREE: usize = 4;

/// Number of memory entries one row emits.
pub const N_MEMORY_CALLS: usize = 3;

/// The address one below the frame pointer.
pub open spec fn fp_minus_one(s: VmState) -> M31 {
    m_sub(M31 { value: s.fp }, M31 { value: 1 })
}

/// The address two below the frame pointer.
pub open spec fn fp_minus_two(s: VmState) -> M31 {
    m_sub(M31 { value: s.fp }, M31 { value: 2 })
}

/// The addresses one row registers with the memory component, in
/// order: the program counter, then `fp - 1`, then `fp - 2`.
pub open spec fn ret_lookups(inputs: Seq<VmState>) -> Seq<int> {
    Seq::new(
        3 * inputs.len(),
        |k: int|
            if k % 3 == 0 {
                inputs[k / 3].pc as int
            } else if k % 3 == 1 {
                fp_minus_one(inputs[k / 3]).value as int
            } else {
                fp_minus_two(inputs[k / 3]).value as int
            },
    )
}

/// The lookup data of one row: each address read and the value claimed
/// for it.
#[derive(Clone, Copy, PartialEq, Eq, Structural, Debug)]
pub struct RetRow {
    /// The program counter.
    pub addr_pc: M31,
    /// The instruction word claimed at the program counter.
    pub inst: M31,
    /// The address one below the frame pointer.
    pub addr_fpm1: M31,
    /// The value read there.
    pub val_fpm1: M31,
    /// The address two below the frame pointer.
    pub addr_fpm2: M31,
    /// The value read there.
    pub val_fpm2: M31,
}

/// One of the three memory tuples of a row.
pub open spec fn ret_tuple(row: RetRow, which: int) -> Seq<M31> {
    if which == 0 {
        seq![row.addr_pc, row.inst]
    } else if which == 1 {
        seq![row.addr_fpm1, row.val_fpm1]
    } else {
        seq![row.addr_fpm2, row.val_fpm2]
    }
}

/// The signed fractions this component contributes: three per row,
/// each with coefficient one over its folded memory tuple.
pub open spec fn ret_terms(rel: Relation, rows: Seq<RetRow>) -> Seq<(QM31, QM31)> {
    Seq::new(
        3 * rows.len(),
        |k: int| (q_one(), spec_combine(rel, ret_tuple(rows[k / 3], k % 3))),
    )
}

/// The lookup row built from one machine state and the memory table.
pub open spec fn spec_ret_row(s: VmState, values: Seq<QM31>) -> RetRow {
    RetRow {
        addr_pc: M31 { value: s.pc },
        inst: M31 { value: RET_INSTRUCTION },
        addr_fpm1: fp_minus_one(s),
        val_fpm1: values[fp_minus_one(s).value as int].a.a,
        addr_fpm2: fp_minus_two(s),
        val_fpm2: values[fp_minus_two(s).value as int].a.a,
    }
}

/// The public statement of this component's trace shape.
#[derive(Clone, Copy, PartialEq, Eq, Structural, Debug)]
pub struct Claim {
    /// The number of ret rows, padding included.
    pub n_rets: usize,
}

impl Claim {
    /// Feed the claim's canonical encoding to the transcript.
    pub fn mix_into(&self, channel: &mut Transcript)
        requires
            self.n_rets <= u64::MAX,
        ensures
            final(channel).data@ == old(channel).data@.push(self.n_rets as u64),
    {
        channel.mix_u64(self.n_rets as u64);
    }

    /// The log heights of this component's columns, by commitment
    /// phase: main columns, interaction columns, then the fixed column.
    pub fn log_sizes(&self) -> (r: (u32, Vec<Vec<u32>>))
        requires
            1 <= self.n_rets <= usize::MAX / 2 + 1,
        ensures
            pow2(r.0 as nat) >= self.n_rets,
            r.0 > 0 ==> pow2((r.0 - 1) as nat) < self.n_rets,
            r.0 as nat == crate::util::padded_log(self.n_rets as nat),
            r.1@.len() == 3,
            r.1@[0].len() == RET_N_TRACE_CELLS,
            r.1@[1].len() == SECURE_EXTENSION_DEGREE * 3,
            r.1@[2].len() == 1,
            forall|t: int, i: int|
                0 <= t < 3 && 0 <= i < r.1@[t].len() ==> r.1@[t][i] == r.0,
    {
        let (_size, log_size) = next_power_of_two(self.n_rets);
        let mut r: Vec<Vec<u32>> = Vec::new();
        r.push(repeat_u32(log_size, RET_N_TRACE_CELLS));
        r.push(repeat_u32(log_size, SECURE_EXTENSION_DEGREE * 3));
        r.push(repeat_u32(log_size, 1));
        (log_size, r)
    }
}

/// The public statement of this component's lookup total.
#[derive(Clone, Copy, PartialEq, Eq, Structural, Debug)]
pub struct InteractionClaim {
    /// Log of the number of rows.
    pub log_size: u32,
    /// The total of the signed lookup fractions this component emits.
    pub claimed_sum: QM31,
}

impl InteractionClaim {
    /// Feed the claim's canonical encoding to the transcript.
    pub fn mix_into(&self, channel: &mut Transcript)
        ensures
            final(channel).data@ == old(channel).data@ + seq![
                self.claimed_sum.a.a.value as u64,
                self.claimed_sum.a.b.value as u64,
                self.claimed_sum.b.a.value as u64,
                self.claimed_sum.b.b.value as u64,
            ],
    {
        channel.mix_felt(self.claimed_sum);
    }
}

/// The constraint-side description of the component.
pub struct Eval {
    /// Log of the number of rows.
    pub log_n_rows: u32,
    /// The memory relation shared with the memory component.
    pub lookup_elements: Relation,
    /// The total this component claims for its lookup fractions.
    pub claimed_sum: QM31,
}

impl Eval {
    /// Assemble the component description from its public claims and
    /// the drawn relation.
    pub fn new(ret_claim: Claim, lookup_elements: Relation, interaction_claim: InteractionClaim)
        -> (r: Eval)
        requires
            1 <= ret_claim.n_rets <= usize::MAX / 2 + 1,
        ensures
            pow2(r.log_n_rows as nat) >= ret_claim.n_rets,
            r.log_n_rows > 0 ==> pow2((r.log_n_rows - 1) as nat) < ret_claim.n_rets,
            r.log_n_rows as nat == crate::util::padded_log(ret_claim.n_rets as nat),
            r.lookup_elements == lookup_elements,
            r.claimed_sum == interaction_claim.claimed_sum,
    {
        let (_size, log_n_rows) = next_power_of_two(ret_claim.n_rets);
        Eval { log_n_rows, lookup_elements, claimed_sum: interaction_claim.claimed_sum }
    }

    /// The log height of the component's trace.
    pub fn log_size(&self) -> (r: u32)
        ensures
            r == self.log_n_rows,
    {
        self.log_n_rows
    }

    /// The highest constraint degree, as a log bound.
    pub fn max_constraint_log_degree_bound(&self) -> (r: u32)
        requires
            self.log_n_rows < u32::MAX,
        ensures
            r == self.log_n_rows + 1,
    {
        self.log_n_rows + 1
    }

    /// Evaluate the component on one row of its main trace: it emits
    /// one memory entry for the instruction word at `pc` and one for
    /// each of the two values read below the frame pointer.
    pub fn evaluate(&self, row: &Vec<M31>) -> (r: Vec<(QM31, QM31)>)
        requires
            self.lookup_elements.wf(),
            row@.len() == RET_N_TRACE_CELLS,
            forall|i: int| 0 <= i < row@.len() ==> (#[trigger] row@[i]).wf(),
        ensures
            r@ == ret_terms(
                self.lookup_elements,
                seq![
                    RetRow {
                        addr_pc: row@[0],
                        inst: M31 { value: RET_INSTRUCTION },
                        addr_fpm1: m_sub(row@[2], M31 { value: 1 }),
                        val_fpm1: row@[3],
                        addr_fpm2: m_sub(row@[2], M31 { value: 2 }),
                        val_fpm2: row@[4],
                    },
                ],
            ),
    {
        let ghost ret_row = RetRow {
            addr_pc: row@[0],
            inst: M31 { value: RET_INSTRUCTION },
            addr_fpm1: m_sub(row@[2], M31 { value: 1 }),
            val_fpm1: row@[3],
            addr_fpm2: m_sub(row@[2], M31 { value: 2 }),
            val_fpm2: row@[4],
        };
        let pc = row[0];
        let fp = row[2];
        let one = q_one_exec();
        let mut tuple0: Vec<M31> = Vec::new();
        tuple0.push(pc);
        tuple0.push(M31 { value: RET_INSTRUCTION });
        let mut tuple1: Vec<M31> = Vec::new();
        tuple1.push(fp.sub(M31 { value: 1 }));
        tuple1.push(row[3]);
        let mut tuple2: Vec<M31> = Vec::new();
        tuple2.push(fp.sub(M31 { value: 2 }));
        tuple2.push(row[4]);
        proof {
            assert(tuple0@ =~= ret_tuple(ret_row, 0));
            assert(tuple1@ =~= ret_tuple(ret_row, 1));
            assert(tuple2@ =~= ret_tuple(ret_row, 2));
        }
        let mut r: Vec<(QM31, QM31)> = Vec::new();
        r.push((one, self.lookup_elements.combine(&tuple0)));
        r.push((one, self.lookup_elements.combine(&tuple1)));
        r.push((one, self.lookup_elements.combine(&tuple2)));
        proof {
            assert(r@ =~= ret_terms(self.lookup_elements, seq![ret_row]));
        }
        r
    }
}

/// The one element of the secure field, as a trace value.
fn q_one_exec() -> (r: QM31)
    ensures
        r == q_one(),
        r.wf(),
{
    QM31::from_m31(M31 { value: 1 })
}

/// Builds the ret component's trace from the recorded machine states.
pub struct ClaimGenerator {
    /// One machine state per row, padded to a power-of-two count by
    /// repeating the first state.
    pub inputs: Vec<VmState>,
}

impl ClaimGenerator {
    /// A power-of-two number of reduced states.
    pub open spec fn wf(self) -> bool {
        &&& 1 <= self.inputs@.len() <= 0x8000_0000
        &&& exists|lg: nat| (#[trigger] pow2(lg)) == self.inputs@.len()
        &&& forall|i: int| 0 <= i < self.inputs@.len() ==> (#[trigger] self.inputs@[i]).wf()
    }

    /// Take the recorded states of every ret step and pad them to the
    /// next power of two by repeating the first.
    pub fn new(inputs: Vec<VmState>) -> (r: ClaimGenerator)
        requires
            1 <= inputs@.len() <= 0x4000_0000,
            forall|i: int| 0 <= i < inputs@.len() ==> (#[trigger] inputs@[i]).wf(),
        ensures
            r.wf(),
            r.inputs@.len() >= inputs@.len(),
            r.inputs@.len() < 2 * inputs@.len(),
            forall|i: int| 0 <= i < inputs@.len() ==> (#[trigger] r.inputs@[i]) == inputs@[i],
            forall|i: int|
                inputs@.len() <= i < r.inputs@.len() ==> (#[trigger] r.inputs@[i]) == inputs@[0],
    {
        let n = inputs.len();
        let (size, log) = next_power_of_two(n);
        let first = inputs[0];
        let ghost orig = inputs@;
        let mut padded = inputs;
        while padded.len() < size
            invariant
                n >= 1,
                n == orig.len(),
                first == orig[0],
                n <= padded@.len() <= size,
                forall|i: int| 0 <= i < n ==> (#[trigger] padded@[i]) == orig[i],
                forall|i: int| n <= i < padded@.len() ==> (#[trigger] padded@[i]) == first,
            decreases size - padded.len(),
        {
            padded.push(first);
        }
        proof {
            vstd::arithmetic::power2::lemma2_to64();
            if log > 0 {
                vstd::arithmetic::power2::lemma_pow2_unfold(log as nat);
            }
            assert(padded@.len() < 2 * n);
        }
        ClaimGenerator { inputs: padded }
    }

    /// Write the component's main trace — one row per ret step, holding
    /// `pc`, `ap`, `fp` and the two values read below the frame
    /// pointer — and register every address read with the memory
    /// component's usage counters.
    pub fn write_trace(&self, memory_trace_generator: &mut addr_to_f31::ClaimGenerator) -> (r: (
        Claim,
        Vec<Vec<M31>>,
        InteractionClaimGenerator,
    ))
        requires
            self.wf(),
            old(memory_trace_generator).wf(),
            forall|i: int|
                0 <= i < self.inputs@.len() ==> (#[trigger] self.inputs@[i]).pc < old(
                    memory_trace_generator,
                ).values@.len(),
            forall|i: int|
                0 <= i < self.inputs@.len() ==> fp_minus_one(#[trigger] self.inputs@[i]).value
                    < old(memory_trace_generator).values@.len(),
            forall|i: int|
                0 <= i < self.inputs@.len() ==> fp_minus_two(#[trigger] self.inputs@[i]).value
                    < old(memory_trace_generator).values@.len(),
            forall|j: int|
                0 <= j < old(memory_trace_generator).multiplicities@.len() ==> (#[trigger] old(
                    memory_trace_generator,
                ).multiplicities@[j]) + 3 * self.inputs@.len() <= u32::MAX,
        ensures
            final(memory_trace_generator).wf(),
            final(memory_trace_generator).values == old(memory_trace_generator).values,
            final(memory_trace_generator).multiplicities@ == apply_lookups(
                old(memory_trace_generator).multiplicities@,
                ret_lookups(self.inputs@),
            ),
            r.0.n_rets == self.inputs@.len(),
            r.1@.len() == RET_N_TRACE_CELLS,
            forall|c: int|
                0 <= c < RET_N_TRACE_CELLS ==> (#[trigger] r.1@[c])@.len() == self.inputs@.len(),
            forall|i: int|
                0 <= i < self.inputs@.len() ==> (#[trigger] r.1@[0]@[i]) == (M31 {
                    value: self.inputs@[i].pc,
                }),
            forall|i: int|
                0 <= i < self.inputs@.len() ==> (#[trigger] r.1@[1]@[i]) == (M31 {
                    value: self.inputs@[i].ap,
                }),
            forall|i: int|
                0 <= i < self.inputs@.len() ==> (#[trigger] r.1@[2]@[i]) == (M31 {
                    value: self.inputs@[i].fp,
                }),
            forall|i: int|
                0 <= i < self.inputs@.len() ==> (#[trigger] r.1@[3]@[i]) == old(
                    memory_trace_generator,
                ).values@[fp_minus_one(self.inputs@[i]).value as int].a.a,
            forall|i: int|
                0 <= i < self.inputs@.len() ==> (#[trigger] r.1@[4]@[i]) == old(
                    memory_trace_generator,
                ).values@[fp_minus_two(self.inputs@[i]).value as int].a.a,
            r.2.wf(),
            r.2.rows@.len() == self.inputs@.len(),
            forall|i: int|
                0 <= i < self.inputs@.len() ==> (#[trigger] r.2.rows@[i]) == spec_ret_row(
                    self.inputs@[i],
                    old(memory_trace_generator).values@,
                ),
    {
        let ghost old_mults = memory_trace_generator.multiplicities@;
        let ghost values = memory_trace_generator.values@;
        let n = self.inputs.len();
        let mut col_pc: Vec<M31> = Vec::new();
        let mut col_ap: Vec<M31> = Vec::new();
        let mut col_fp: Vec<M31> = Vec::new();
        let mut col_v1: Vec<M31> = Vec::new();
        let mut col_v2: Vec<M31> = Vec::new();
        let mut rows: Vec<RetRow> = Vec::new();
        let mut i: usize = 0;
        proof {
            assert(ret_lookups(self.inputs@.subrange(0, 0)) =~= Seq::<int>::empty());
        }
        while i < n
            invariant
                self.wf(),
                i <= n,
                n == self.inputs@.len(),
                memory_trace_generator.wf(),
                memory_trace_generator.values@ == values,
                memory_trace_generator.multiplicities@.len() == old_mults.len(),
                old_mults == old(memory_trace_generator).multiplicities@,
                values == old(memory_trace_generator).values@,
                memory_trace_generator.values == old(memory_trace_generator).values,
                forall|k: int|
                    0 <= k < n ==> (#[trigger] self.inputs@[k]).pc < values.len(),
                forall|k: int|
                    0 <= k < n ==> fp_minus_one(#[trigger] self.inputs@[k]).value < values.len(),
                forall|k: int|
                    0 <= k < n ==> fp_minus_two(#[trigger] self.inputs@[k]).value < values.len(),
                forall|j: int|
                    0 <= j < old_mults.len() ==> (#[trigger] old_mults[j]) + 3 * n <= u32::MAX,
                forall|j: int|
                    0 <= j < old_mults.len()
                        ==> (#[trigger] memory_trace_generator.multiplicities@[j]) <= old_mults[j]
                        + 3 * i,
                memory_trace_generator.multiplicities@ == apply_lookups(
                    old_mults,
                    ret_lookups(self.inputs@.subrange(0, i as int)),
                ),
                col_pc@.len() == i && col_ap@.len() == i && col_fp@.len() == i && col_v1@.len()
                    == i && col_v2@.len() == i && rows@.len() == i,
                forall|k: int|
                    0 <= k < i ==> (#[trigger] col_pc@[k]) == (M31 { value: self.inputs@[k].pc }),
                forall|k: int|
                    0 <= k < i ==> (#[trigger] col_ap@[k]) == (M31 { value: self.inputs@[k].ap }),
                forall|k: int|
                    0 <= k < i ==> (#[trigger] col_fp@[k]) == (M31 { value: self.inputs@[k].fp }),
                forall|k: int|
                    0 <= k < i ==> (#[trigger] col_v1@[k]) == values[fp_minus_one(
                        self.inputs@[k],
                    ).value as int].a.a,
                forall|k: int|
                    0 <= k < i ==> (#[trigger] col_v2@[k]) == values[fp_minus_two(
                        self.inputs@[k],
                    ).value as int].a.a,
                forall|k: int|
                    0 <= k < i ==> (#[trigger] rows@[k]) == spec_ret_row(self.inputs@[k], values),
            decreases n - i,
        {
            let ghost ls_i = ret_lookups(self.inputs@.subrange(0, i as int));
            let ghost prev = memory_trace_generator.multiplicities@;
            let s = self.inputs[i];
            let pc = M31 { value: s.pc };
            let ap = M31 { value: s.ap };
            let fp = M31 { value: s.fp };
            let fpm1 = fp.sub(M31 { value: 1 });
            let fpm2 = fp.sub(M31 { value: 2 });
            let v1 = memory_trace_generator.deduce_output(fpm1).a.a;
            let v2 = memory_trace_generator.deduce_output(fpm2).a.a;
            col_pc.push(pc);
            col_ap.push(ap);
            col_fp.push(fp);
            col_v1.push(v1);
            col_v2.push(v2);
            rows.push(
                RetRow {
                    addr_pc: pc,
                    inst: M31 { value: RET_INSTRUCTION },
                    addr_fpm1: fpm1,
                    val_fpm1: v1,
                    addr_fpm2: fpm2,
                    val_fpm2: v2,
                },
            );
            let ghost a1 = s.pc as int;
            let ghost a2 = fpm1.value as int;
            let ghost a3 = fpm2.value as int;
            memory_trace_generator.add_inputs(pc.value as usize);
            memory_trace_generator.add_inputs(fpm1.value as usize);
            memory_trace_generator.add_inputs(fpm2.value as usize);
            proof {
                assert(memory_trace_generator.multiplicities@ == bump(
                    bump(bump(prev, a1), a2),
                    a3,
                ));
                addr_to_f31::lemma_apply_lookups_three(prev, a1, a2, a3);
                addr_to_f31::lemma_apply_lookups_concat(old_mults, ls_i, seq![a1, a2, a3]);
                assert(ret_lookups(self.inputs@.subrange(0, i + 1)) =~= ls_i + seq![a1, a2, a3]);
            }
            i = i + 1;
        }
        proof {
            assert(self.inputs@.subrange(0, n as int) =~= self.inputs@);
        }
        let mut trace: Vec<Vec<M31>> = Vec::new();
        trace.push(col_pc);
        trace.push(col_ap);
        trace.push(col_fp);
        trace.push(col_v1);
        trace.push(col_v2);
        (Claim { n_rets: n }, trace, InteractionClaimGenerator { rows })
    }
}

/// Builds the ret component's interaction trace: three signed
/// fractions per row.
pub struct InteractionClaimGenerator {
    /// The lookup data of each row, in order.
    pub rows: Vec<RetRow>,
}

impl InteractionClaimGenerator {
    /// A power-of-two number of rows with reduced coordinates.
    pub open spec fn wf(self) -> bool {
        &&& 1 <= self.rows@.len() <= 0x8000_0000
        &&& exists|lg: nat| (#[trigger] pow2(lg)) == self.rows@.len()
        &&& forall|i: int|
            0 <= i < self.rows@.len() ==> {
                let row = #[trigger] self.rows@[i];
                row.addr_pc.wf() && row.inst.wf() && row.addr_fpm1.wf() && row.val_fpm1.wf()
                    && row.addr_fpm2.wf() && row.val_fpm2.wf()
            }
    }

    /// An empty generator.
    pub fn with_capacity(capacity: usize) -> (r: InteractionClaimGenerator)
        ensures
            r.rows@.len() == 0,
    {
        InteractionClaimGenerator { rows: Vec::new() }
    }

    /// Total the component's signed lookup fractions: for each row, one
    /// over each of its three folded memory tuples.
    #[verifier::rlimit(100)]
    #[verifier::spinoff_prover]
    pub fn write_interaction_trace(&self, lookup_elements: &Relation) -> (r: InteractionClaim)
        requires
            self.wf(),
            lookup_elements.wf(),
        ensures
            pow2(r.log_size as nat) == self.rows@.len(),
            r.claimed_sum == frac_sum(ret_terms(*lookup_elements, self.rows@)),
            r.claimed_sum.wf(),
    {
        let n = self.rows.len();
        let (_size, log_size) = next_power_of_two(n);
        proof {
            let lg = choose|lg: nat| (#[trigger] pow2(lg)) == self.rows@.len();
            crate::util::lemma_pow2_exact(n as nat, lg, log_size as nat);
        }
        let ghost terms = ret_terms(*lookup_elements, self.rows@);
        let one = q_one_exec();
        let mut acc = QM31::zero();
        let mut i: usize = 0;
        proof {
            assert(terms.subrange(0, 0) =~= Seq::<(QM31, QM31)>::empty());
        }
        while i < n
            invariant
                self.wf(),
                lookup_elements.wf(),
                one == q_one(),
                one.wf(),
                i <= n,
                n == self.rows@.len(),
                terms == ret_terms(*lookup_elements, self.rows@),
                terms.len() == 3 * n,
                acc == frac_sum(terms.subrange(0, 3 * i)),
                acc.wf(),
            decreases n - i,
        {
            let row = self.rows[i];
            let mut tuple0: Vec<M31> = Vec::new();
            tuple0.push(row.addr_pc);
            tuple0.push(row.inst);
            let mut tuple1: Vec<M31> = Vec::new();
            tuple1.push(row.addr_fpm1);
            tuple1.push(row.val_fpm1);
            let mut tuple2: Vec<M31> = Vec::new();
            tuple2.push(row.addr_fpm2);
            tuple2.push(row.val_fpm2);
            proof {
                assert(tuple0@ =~= ret_tuple(self.rows@[i as int], 0));
                assert(tuple1@ =~= ret_tuple(self.rows@[i as int], 1));
                assert(tuple2@ =~= ret_tuple(self.rows@[i as int], 2));
            }
            let d0 = lookup_elements.combine(&tuple0);
            let d1 = lookup_elements.combine(&tuple1);
            let d2 = lookup_elements.combine(&tuple2);
            proof {
                assert((3 * i) / 3 == i && (3 * i) % 3 == 0);
                assert((3 * i + 1) / 3 == i && (3 * i + 1) % 3 == 1);
                assert((3 * i + 2) / 3 == i && (3 * i + 2) % 3 == 2);
                assert(terms[3 * i] == (q_one(), spec_combine(
                    *lookup_elements,
                    ret_tuple(self.rows@[i as int], 0),
                )));
                assert(terms[3 * i + 1] == (q_one(), spec_combine(
                    *lookup_elements,
                    ret_tuple(self.rows@[i as int], 1),
                )));
                assert(terms[3 * i + 2] == (q_one(), spec_combine(
                    *lookup_elements,
                    ret_tuple(self.rows@[i as int], 2),
                )));
                crate::logup::lemma_frac_sum_snoc(terms, 3 * i);
                crate::logup::lemma_frac_sum_snoc(terms, 3 * i + 1);
                crate::logup::lemma_frac_sum_snoc(terms, 3 * i + 2);
            }
            acc = add_frac(acc, one, d0);
            acc = add_frac(acc, one, d1);
            acc = add_frac(acc, one, d2);
            i = i + 1;
        }
        proof {
            assert(terms.subrange(0, 3 * (n as int)) =~= terms);
        }
        InteractionClaim { log_size, claimed_sum: acc }
    }
}

} // verus!
