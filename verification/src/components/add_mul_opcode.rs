//! The add/mul opcode component.
//!
//! Each row takes one machine state `(ap, fp, pc)`, decodes the
//! instruction word stored at `pc` into its packed flags, reconstructs
//! the destination and operand addresses from the register selectors,
//! reads the three operands through the memory relation, asserts the
//! arithmetic identity `dst = is_mul * (lhs * rhs) + (1 - is_mul) *
//! (lhs + rhs)`, and yields the successor state with negative sign so
//! that chained opcodes' state entries telescope.

use vstd::prelude::*;

use vstd::arithmetic::power2::pow2;

use crate::channel::Transcript;
use crate::components::addr_to_f31;
use crate::components::addr_to_f31::{apply_lookups, bump};
use crate::extension::{
    q_add, q_from_m31, q_from_parts, q_mul, q_neg, q_one, q_sub, q_zero, QM31,
};
use crate::field::{m_add, m_mul, m_sub, M31};
use crate::gadgets::{
    decode_flags, select_trit_poly, FLAG_BASES_PRODUCT, IMM_BASE, INSTRUCTION_BASE,
};
use crate::logup::{add_frac, frac_of, frac_sum};
use crate::relations::{spec_combine, Relation};
use crate::state::VmState;
use crate::util::{next_power_of_two, repeat_u32};

verus! {

/// Number of main-trace columns: the state, the five flags, the three
/// offsets, the three addresses and the three four-limb values.
pub const N_TRACE_CELLS: usize = 26;

/// Number of main-trace columns.
pub const N_TRACE_COLUMNS: usize = 26;

/// Number of base-field coordinates of a secure-field element.
pub const SECURE_EXTENSION_DEGREE: usize = 4;

/// Number of memory entries one row emits.
pub const N_MEMORY_LOOKUPS: usize = 4;

/// Number of state entries one row emits.
pub const N_STATE_LOOKUPS: usize = 2;

/// The boolean range residual `x * x - x`: zero exactly on `{0, 1}`.
pub open spec fn bool_residual(x: M31) -> M31 {
    m_sub(m_mul(x, x), x)
}

/// The ternary range residual `(x - 2)(x - 1) x`: zero exactly on
/// `{0, 1, 2}`.
pub open spec fn trit_residual(x: M31) -> M31 {
    m_mul(m_mul(m_sub(x, M31 { value: 2 }), m_sub(x, M31 { value: 1 })), x)
}

/// The instruction word a row's flag columns reconstruct, by the fixed
/// opcode weights.
pub open spec fn opcode_of_row(r: Seq<M31>) -> M31 {
    m_add(
        m_add(
            m_add(
                m_add(
                    m_add(M31 { value: INSTRUCTION_BASE }, r[3]),
                    m_mul(M31 { value: 2 }, r[4]),
                ),
                m_mul(M31 { value: 4 }, r[5]),
            ),
            m_mul(M31 { value: 12 }, r[6]),
        ),
        m_mul(M31 { value: 24 }, r[7]),
    )
}

/// The destination-address residual: the address column minus
/// `reg0 * fp + (1 - reg0) * ap + off0`.
pub open spec fn dst_addr_residual(r: Seq<M31>) -> M31 {
    m_sub(
        r[11],
        m_add(m_add(m_mul(r[4], r[1]), m_mul(m_sub(M31 { value: 1 }, r[4]), r[0])), r[8]),
    )
}

/// The right-operand-address residual: the address column minus
/// `reg2 * fp + (1 - reg2) * ap + off2`.
pub open spec fn rhs_addr_residual(r: Seq<M31>) -> M31 {
    m_sub(
        r[13],
        m_add(m_add(m_mul(r[6], r[1]), m_mul(m_sub(M31 { value: 1 }, r[6]), r[0])), r[10]),
    )
}

/// The left-operand-address residual: the address column minus the
/// ternary selection among `ap`, `fp` and the immediate base, plus
/// `off1`.
pub open spec fn lhs_addr_residual(r: Seq<M31>) -> M31 {
    m_sub(r[12], m_add(select_trit_poly(r[5], r[0], r[1], M31 { value: IMM_BASE }), r[9]))
}

/// The destination value of a row, as a secure-field element.
pub open spec fn row_dst(r: Seq<M31>) -> QM31 {
    q_from_parts(r[14], r[15], r[16], r[17])
}

/// The left operand of a row, as a secure-field element.
pub open spec fn row_lhs(r: Seq<M31>) -> QM31 {
    q_from_parts(r[18], r[19], r[20], r[21])
}

/// The right operand of a row, as a secure-field element.
pub open spec fn row_rhs(r: Seq<M31>) -> QM31 {
    q_from_parts(r[22], r[23], r[24], r[25])
}

/// The semantic residual of the opcode: the destination minus
/// `is_mul * (lhs * rhs) + (1 - is_mul) * (lhs + rhs)`, in the secure
/// field.
pub open spec fn op_residual(r: Seq<M31>) -> QM31 {
    let is_mul = q_from_m31(r[3]);
    q_sub(
        row_dst(r),
        q_add(
            q_mul(is_mul, q_mul(row_lhs(r), row_rhs(r))),
            q_mul(q_sub(q_one(), is_mul), q_add(row_lhs(r), row_rhs(r))),
        ),
    )
}

/// One of the six fraction terms a row contributes: the incoming state,
/// the instruction read, the three operand reads, and the yielded
/// successor state with negative sign.
pub open spec fn row_term(mem: Relation, state: Relation, r: Seq<M31>, which: int) -> (
    QM31,
    QM31,
) {
    if which == 0 {
        (q_one(), spec_combine(state, seq![r[0], r[1], r[2]]))
    } else if which == 1 {
        (q_one(), spec_combine(mem, seq![r[2], opcode_of_row(r), r[8], r[9], r[10]]))
    } else if which == 2 {
        (q_one(), spec_combine(mem, seq![r[11], r[14], r[15], r[16], r[17]]))
    } else if which == 3 {
        (q_one(), spec_combine(mem, seq![r[12], r[18], r[19], r[20], r[21]]))
    } else if which == 4 {
        (q_one(), spec_combine(mem, seq![r[13], r[22], r[23], r[24], r[25]]))
    } else {
        (
            q_neg(q_one()),
            spec_combine(
                state,
                seq![m_add(r[0], r[7]), r[1], m_add(r[2], M31 { value: 1 })],
            ),
        )
    }
}

/// The signed fractions this component contributes: six per row.
pub open spec fn add_mul_terms(mem: Relation, state: Relation, rows: Seq<Seq<M31>>) -> Seq<
    (QM31, QM31),
> {
    Seq::new(6 * rows.len(), |k: int| row_term(mem, state, rows[k / 6], k % 6))
}

/// The sequences of the trace rows held in a vector of rows.
pub open spec fn rows_view(rows: Seq<Vec<M31>>) -> Seq<Seq<M31>> {
    Seq::new(rows.len(), |i: int| rows[i]@)
}

/// The public statement of this component's trace shape.
#[derive(Clone, Copy, PartialEq, Eq, Structural, Debug)]
pub struct Claim {
    /// The number of add/mul rows, padding included.
    pub n_calls: usize,
}

impl Claim {
    /// Feed the claim's canonical encoding to the transcript.
    pub fn mix_into(&self, channel: &mut Transcript)
        requires
            self.n_calls <= u64::MAX,
        ensures
            final(channel).data@ == old(channel).data@.push(self.n_calls as u64),
    {
        channel.mix_u64(self.n_calls as u64);
    }

    /// The log heights of this component's columns, by commitment
    /// phase: the fixed column, the main columns, then the interaction
    /// columns.
    pub fn log_sizes(&self) -> (r: (u32, Vec<Vec<u32>>))
        requires
            1 <= self.n_calls <= usize::MAX / 2 + 1,
        ensures
            pow2(r.0 as nat) >= self.n_calls,
            r.0 > 0 ==> pow2((r.0 - 1) as nat) < self.n_calls,
            r.0 as nat == crate::util::padded_log(self.n_calls as nat),
            r.1@.len() == 3,
            r.1@[0].len() == 1,
            r.1@[1].len() == N_TRACE_CELLS,
            r.1@[2].len() == SECURE_EXTENSION_DEGREE * 3,
            forall|t: int, i: int|
                0 <= t < 3 && 0 <= i < r.1@[t].len() ==> r.1@[t][i] == r.0,
    {
        let (_size, log_size) = next_power_of_two(self.n_calls);
        let mut r: Vec<Vec<u32>> = Vec::new();
        r.push(repeat_u32(log_size, 1));
        r.push(repeat_u32(log_size, N_TRACE_CELLS));
        r.push(repeat_u32(log_size, SECURE_EXTENSION_DEGREE * 3));
        (log_size, r)
    }
}

/// The public statement of this component's lookup total.
#[derive(Clone, Copy, PartialEq, Eq, Structural, Debug)]
pub struct InteractionClaim {
    /// Log of the number of rows.
    pub log_size: u32,
    /// The total of the signed lookup fractions this component emits.
    pub claimed_sum: QM31,
}

impl InteractionClaim {
    /// Feed the claim's canonical encoding to the transcript.
    pub fn mix_into(&self, channel: &mut Transcript)
        ensures
            final(channel).data@ == old(channel).data@ + seq![
                self.claimed_sum.a.a.value as u64,
                self.claimed_sum.a.b.value as u64,
                self.claimed_sum.b.a.value as u64,
                self.claimed_sum.b.b.value as u64,
            ],
    {
        channel.mix_felt(self.claimed_sum);
    }
}

/// The residuals and fraction terms of one row under the component's
/// constraints.
pub struct RowEvaluation {
    /// The base-field residuals, in order: the four boolean range
    /// checks, the ternary range check, and the three address checks.
    pub constraints: Vec<M31>,
    /// The secure-field residual of the opcode's arithmetic identity.
    pub op_constraint: QM31,
    /// The six signed fraction terms of the row.
    pub fractions: Vec<(QM31, QM31)>,
}

/// The constraint-side description of the component.
pub struct Eval {
    /// Log of the number of rows.
    pub log_n_rows: u32,
    /// The memory relation shared with the memory component.
    pub memory_lookup: Relation,
    /// The state relation shared with the other opcode components.
    pub state_lookup: Relation,
    /// The total this component claims for its lookup fractions.
    pub claimed_sum: QM31,
}

impl Eval {
    /// Assemble the component description from its public claims and
    /// the drawn relations.
    pub fn new(
        claim: Claim,
        memory_lookup: Relation,
        state_lookup: Relation,
        interaction_claim: InteractionClaim,
    ) -> (r: Eval)
        requires
            1 <= claim.n_calls <= usize::MAX / 2 + 1,
        ensures
            pow2(r.log_n_rows as nat) >= claim.n_calls,
            r.log_n_rows > 0 ==> pow2((r.log_n_rows - 1) as nat) < claim.n_calls,
            r.log_n_rows as nat == crate::util::padded_log(claim.n_calls as nat),
            r.memory_lookup == memory_lookup,
            r.state_lookup == state_lookup,
            r.claimed_sum == interaction_claim.claimed_sum,
    {
        let (_size, log_n_rows) = next_power_of_two(claim.n_calls);
        Eval {
            log_n_rows,
            memory_lookup,
            state_lookup,
            claimed_sum: interaction_claim.claimed_sum,
        }
    }

    /// The log height of the component's trace.
    pub fn log_size(&self) -> (r: u32)
        ensures
            r == self.log_n_rows,
    {
        self.log_n_rows
    }

    /// The highest constraint degree, as a log bound.
    pub fn max_constraint_log_degree_bound(&self) -> (r: u32)
        requires
            self.log_n_rows < u32::MAX,
        ensures
            r == self.log_n_rows + 1,
    {
        self.log_n_rows + 1
    }

    /// Evaluate the component's constraints and relation entries on one
    /// row of its main trace.
    pub fn evaluate(&self, row: &Vec<M31>) -> (r: RowEvaluation)
        requires
            self.memory_lookup.wf(),
            self.memory_lookup.alpha_powers@.len() >= 5,
            self.state_lookup.wf(),
            self.state_lookup.alpha_powers@.len() >= 3,
            row@.len() == N_TRACE_CELLS,
            forall|i: int| 0 <= i < row@.len() ==> (#[trigger] row@[i]).wf(),
        ensures
            r.constraints@ == seq![
                bool_residual(row@[3]),
                bool_residual(row@[4]),
                bool_residual(row@[6]),
                bool_residual(row@[7]),
                trit_residual(row@[5]),
                dst_addr_residual(row@),
                rhs_addr_residual(row@),
                lhs_addr_residual(row@),
            ],
            r.op_constraint == op_residual(row@),
            r.fractions@ == add_mul_terms(self.memory_lookup, self.state_lookup, seq![row@]),
    {
        let (constraints, op_constraint) = eval_constraints(row);
        let fractions = eval_fractions(&self.memory_lookup, &self.state_lookup, row);
        RowEvaluation { constraints, op_constraint, fractions }
    }
}

/// The base-field and secure-field residuals of one row.
#[verifier::rlimit(100)]
#[verifier::spinoff_prover]
fn eval_constraints(row: &Vec<M31>) -> (r: (Vec<M31>, QM31))
    requires
        row@.len() == N_TRACE_CELLS,
        forall|i: int| 0 <= i < row@.len() ==> (#[trigger] row@[i]).wf(),
    ensures
        r.0@ == seq![
            bool_residual(row@[3]),
            bool_residual(row@[4]),
            bool_residual(row@[6]),
            bool_residual(row@[7]),
            trit_residual(row@[5]),
            dst_addr_residual(row@),
            rhs_addr_residual(row@),
            lhs_addr_residual(row@),
        ],
        r.1 == op_residual(row@),
{
    let one = M31 { value: 1 };
    let two = M31 { value: 2 };
    let two_inv = M31 { value: 0x4000_0000 };
    let ap = row[0];
    let fp = row[1];
    let pc = row[2];
    let is_mul = row[3];
    let reg0 = row[4];
    let reg1 = row[5];
    let reg2 = row[6];
    let appp = row[7];
    let off0 = row[8];
    let off1 = row[9];
    let off2 = row[10];
    let dst_addr = row[11];
    let lhs_addr = row[12];
    let rhs_addr = row[13];

    let mut constraints: Vec<M31> = Vec::new();
    constraints.push(is_mul.mul(is_mul).sub(is_mul));
    constraints.push(reg0.mul(reg0).sub(reg0));
    constraints.push(reg2.mul(reg2).sub(reg2));
    constraints.push(appp.mul(appp).sub(appp));
    constraints.push(reg1.sub(two).mul(reg1.sub(one)).mul(reg1));

    let opcode = M31 { value: INSTRUCTION_BASE }.add(is_mul).add(two.mul(reg0)).add(
        M31 { value: 4 }.mul(reg1),
    ).add(M31 { value: 12 }.mul(reg2)).add(M31 { value: 24 }.mul(appp));

    constraints.push(
        dst_addr.sub(reg0.mul(fp).add(one.sub(reg0).mul(ap)).add(off0)),
    );
    constraints.push(
        rhs_addr.sub(reg2.mul(fp).add(one.sub(reg2).mul(ap)).add(off2)),
    );
    let tm1 = reg1.sub(one);
    let tm2 = reg1.sub(two);
    let term_a = two_inv.mul(tm1).mul(tm2).mul(ap);
    let term_b = reg1.mul(tm2).mul(fp);
    let term_c = two_inv.mul(reg1).mul(tm1).mul(M31 { value: IMM_BASE });
    let selected = term_a.sub(term_b).add(term_c);
    constraints.push(lhs_addr.sub(selected.add(off1)));

    let dst = QM31::from_parts(row[14], row[15], row[16], row[17]);
    let lhs = QM31::from_parts(row[18], row[19], row[20], row[21]);
    let rhs = QM31::from_parts(row[22], row[23], row[24], row[25]);
    let is_mul_q = QM31::from_m31(is_mul);
    let one_q = q_one_exec();
    let op_constraint = dst.sub(
        is_mul_q.mul(lhs.mul(rhs)).add(one_q.sub(is_mul_q).mul(lhs.add(rhs))),
    );

    proof {
        assert(selected == select_trit_poly(row@[5], row@[0], row@[1], M31 { value: IMM_BASE }));
        assert(constraints@ =~= seq![
            bool_residual(row@[3]),
            bool_residual(row@[4]),
            bool_residual(row@[6]),
            bool_residual(row@[7]),
            trit_residual(row@[5]),
            dst_addr_residual(row@),
            rhs_addr_residual(row@),
            lhs_addr_residual(row@),
        ]);
    }
    (constraints, op_constraint)
}

/// The six signed fraction terms of one row.
#[verifier::rlimit(100)]
#[verifier::spinoff_prover]
fn eval_fractions(memory_lookup: &Relation, state_lookup: &Relation, row: &Vec<M31>) -> (r: Vec<
    (QM31, QM31),
>)
    requires
        memory_lookup.wf(),
        memory_lookup.alpha_powers@.len() >= 5,
        state_lookup.wf(),
        state_lookup.alpha_powers@.len() >= 3,
        row@.len() == N_TRACE_CELLS,
        forall|i: int| 0 <= i < row@.len() ==> (#[trigger] row@[i]).wf(),
    ensures
        r@ == add_mul_terms(*memory_lookup, *state_lookup, seq![row@]),
        forall|j: int| 0 <= j < r@.len() ==> (#[trigger] r@[j]).0.wf() && r@[j].1.wf(),
{
    let one = M31 { value: 1 };
    let two = M31 { value: 2 };
    let ap = row[0];
    let fp = row[1];
    let pc = row[2];
    let is_mul = row[3];
    let reg0 = row[4];
    let reg1 = row[5];
    let reg2 = row[6];
    let appp = row[7];
    let off0 = row[8];
    let off1 = row[9];
    let off2 = row[10];
    let dst_addr = row[11];
    let lhs_addr = row[12];
    let rhs_addr = row[13];
    let opcode = M31 { value: INSTRUCTION_BASE }.add(is_mul).add(two.mul(reg0)).add(
        M31 { value: 4 }.mul(reg1),
    ).add(M31 { value: 12 }.mul(reg2)).add(M31 { value: 24 }.mul(appp));
    let one_q = q_one_exec();
    let mut state_in: Vec<M31> = Vec::new();
    state_in.push(ap);
    state_in.push(fp);
    state_in.push(pc);
    let mut inst_tuple: Vec<M31> = Vec::new();
    inst_tuple.push(pc);
    inst_tuple.push(opcode);
    inst_tuple.push(off0);
    inst_tuple.push(off1);
    inst_tuple.push(off2);
    let mut dst_tuple: Vec<M31> = Vec::new();
    dst_tuple.push(dst_addr);
    dst_tuple.push(row[14]);
    dst_tuple.push(row[15]);
    dst_tuple.push(row[16]);
    dst_tuple.push(row[17]);
    let mut lhs_tuple: Vec<M31> = Vec::new();
    lhs_tuple.push(lhs_addr);
    lhs_tuple.push(row[18]);
    lhs_tuple.push(row[19]);
    lhs_tuple.push(row[20]);
    lhs_tuple.push(row[21]);
    let mut rhs_tuple: Vec<M31> = Vec::new();
    rhs_tuple.push(rhs_addr);
    rhs_tuple.push(row[22]);
    rhs_tuple.push(row[23]);
    rhs_tuple.push(row[24]);
    rhs_tuple.push(row[25]);
    let mut state_out: Vec<M31> = Vec::new();
    state_out.push(ap.add(appp));
    state_out.push(fp);
    state_out.push(pc.add(one));
    let mut fractions: Vec<(QM31, QM31)> = Vec::new();
    fractions.push((one_q, state_lookup.combine(&state_in)));
    fractions.push((one_q, memory_lookup.combine(&inst_tuple)));
    fractions.push((one_q, memory_lookup.combine(&dst_tuple)));
    fractions.push((one_q, memory_lookup.combine(&lhs_tuple)));
    fractions.push((one_q, memory_lookup.combine(&rhs_tuple)));
    fractions.push((one_q.neg(), state_lookup.combine(&state_out)));
    proof {
        assert(state_in@ =~= seq![row@[0], row@[1], row@[2]]);
        assert(opcode == opcode_of_row(row@));
        assert(inst_tuple@ =~= seq![row@[2], opcode_of_row(row@), row@[8], row@[9], row@[10]]);
        assert(dst_tuple@ =~= seq![row@[11], row@[14], row@[15], row@[16], row@[17]]);
        assert(lhs_tuple@ =~= seq![row@[12], row@[18], row@[19], row@[20], row@[21]]);
        assert(rhs_tuple@ =~= seq![row@[13], row@[22], row@[23], row@[24], row@[25]]);
        assert(state_out@ =~= seq![
            m_add(row@[0], row@[7]),
            row@[1],
            m_add(row@[2], M31 { value: 1 }),
        ]);
        assert(fractions@ =~= add_mul_terms(*memory_lookup, *state_lookup, seq![row@]));
    }
    fractions
}

/// The one element of the secure field, as a trace value.
fn q_one_exec() -> (r: QM31)
    ensures
        r == q_one(),
        r.wf(),
{
    QM31::from_m31(M31 { value: 1 })
}

/// The flag word of a step: the instruction word stored at its program
/// counter, less the base offset.
pub open spec fn spec_flags_word(s: VmState, values: Seq<QM31>) -> M31 {
    m_sub(values[s.pc as int].a.a, M31 { value: INSTRUCTION_BASE })
}

/// The destination address of a step: `reg0 * fp + (1 - reg0) * ap`
/// plus the (zero) offset.
pub open spec fn spec_dst_addr(s: VmState, values: Seq<QM31>) -> M31 {
    let f = decode_flags(spec_flags_word(s, values).value as int);
    m_add(
        m_add(
            m_mul(M31 { value: f.reg0 }, M31 { value: s.fp }),
            m_mul(m_sub(M31 { value: 1 }, M31 { value: f.reg0 }), M31 { value: s.ap }),
        ),
        M31 { value: 0 },
    )
}

/// The left-operand address of a step: the ternary selection among
/// `ap`, `fp` and the immediate base, plus the (zero) offset.
pub open spec fn spec_lhs_addr(s: VmState, values: Seq<QM31>) -> M31 {
    let f = decode_flags(spec_flags_word(s, values).value as int);
    m_add(
        select_trit_poly(
            M31 { value: f.reg1 },
            M31 { value: s.ap },
            M31 { value: s.fp },
            M31 { value: IMM_BASE },
        ),
        M31 { value: 0 },
    )
}

/// The right-operand address of a step: `reg2 * fp + (1 - reg2) * ap`
/// plus the (zero) offset.
pub open spec fn spec_rhs_addr(s: VmState, values: Seq<QM31>) -> M31 {
    let f = decode_flags(spec_flags_word(s, values).value as int);
    m_add(
        m_add(
            m_mul(M31 { value: f.reg2 }, M31 { value: s.fp }),
            m_mul(m_sub(M31 { value: 1 }, M31 { value: f.reg2 }), M31 { value: s.ap }),
        ),
        M31 { value: 0 },
    )
}

/// The full trace row of a step, deduced from the memory table.
pub open spec fn spec_row(s: VmState, values: Seq<QM31>) -> Seq<M31> {
    let zero = M31 { value: 0 };
    let f = decode_flags(spec_flags_word(s, values).value as int);
    let dst_addr = spec_dst_addr(s, values);
    let lhs_addr = spec_lhs_addr(s, values);
    let rhs_addr = spec_rhs_addr(s, values);
    seq![
        M31 { value: s.ap },
        M31 { value: s.fp },
        M31 { value: s.pc },
        M31 { value: f.is_mul },
        M31 { value: f.reg0 },
        M31 { value: f.reg1 },
        M31 { value: f.reg2 },
        M31 { value: f.appp },
        zero,
        zero,
        zero,
        dst_addr,
        lhs_addr,
        rhs_addr,
        values[dst_addr.value as int].a.a,
        zero,
        zero,
        zero,
        values[lhs_addr.value as int].a.a,
        zero,
        zero,
        zero,
        values[rhs_addr.value as int].a.a,
        zero,
        zero,
        zero,
    ]
}

/// Whether a step can be turned into a trace row: its program counter
/// and deduced addresses lie inside the table, its instruction word
/// decodes cleanly, and the destination value matches the operation
/// applied to the operands.
pub open spec fn row_ok(s: VmState, values: Seq<QM31>) -> bool {
    let f = decode_flags(spec_flags_word(s, values).value as int);
    let dst_addr = spec_dst_addr(s, values);
    let lhs_addr = spec_lhs_addr(s, values);
    let rhs_addr = spec_rhs_addr(s, values);
    &&& (s.pc as int) < values.len()
    &&& spec_flags_word(s, values).value < FLAG_BASES_PRODUCT
    &&& (dst_addr.value as int) < values.len()
    &&& (lhs_addr.value as int) < values.len()
    &&& (rhs_addr.value as int) < values.len()
    &&& values[dst_addr.value as int].a.a == (if f.is_mul == 1 {
        m_mul(values[lhs_addr.value as int].a.a, values[rhs_addr.value as int].a.a)
    } else {
        m_add(values[lhs_addr.value as int].a.a, values[rhs_addr.value as int].a.a)
    })
}

/// An error of the trace generator: the step cannot be turned into a
/// sound trace row.
#[derive(Clone, Copy, PartialEq, Eq, Structural, Debug)]
pub enum TraceGenError {
    /// An address to be read lies outside the memory table.
    AddressOutOfRange {
        /// The offending address.
        addr: u32,
    },
    /// The instruction word does not decode to a legal flag tuple.
    Decode {
        /// The word that failed to decode.
        word: u32,
    },
    /// The destination value does not match the operation applied to
    /// the operands.
    OperandMismatch {
        /// The destination address whose value mismatches.
        dst_addr: u32,
    },
}

/// The error the trace generator reports for a bad step, checking in
/// order: the program counter, the instruction word, the three
/// addresses, then the operation.
pub open spec fn spec_row_error(s: VmState, values: Seq<QM31>) -> TraceGenError {
    let word = spec_flags_word(s, values);
    let dst_addr = spec_dst_addr(s, values);
    let lhs_addr = spec_lhs_addr(s, values);
    let rhs_addr = spec_rhs_addr(s, values);
    if (s.pc as int) >= values.len() {
        TraceGenError::AddressOutOfRange { addr: s.pc }
    } else if word.value >= FLAG_BASES_PRODUCT {
        TraceGenError::Decode { word: word.value }
    } else if (dst_addr.value as int) >= values.len() {
        TraceGenError::AddressOutOfRange { addr: dst_addr.value }
    } else if (lhs_addr.value as int) >= values.len() {
        TraceGenError::AddressOutOfRange { addr: lhs_addr.value }
    } else if (rhs_addr.value as int) >= values.len() {
        TraceGenError::AddressOutOfRange { addr: rhs_addr.value }
    } else {
        TraceGenError::OperandMismatch { dst_addr: dst_addr.value }
    }
}

/// The addresses a run of steps registers with the memory component,
/// in order: for each step, the program counter, then the destination,
/// left and right operand addresses.
pub open spec fn add_mul_lookups(inputs: Seq<VmState>, values: Seq<QM31>) -> Seq<int> {
    Seq::new(
        4 * inputs.len(),
        |k: int|
            if k % 4 == 0 {
                inputs[k / 4].pc as int
            } else if k % 4 == 1 {
                spec_dst_addr(inputs[k / 4], values).value as int
            } else if k % 4 == 2 {
                spec_lhs_addr(inputs[k / 4], values).value as int
            } else {
                spec_rhs_addr(inputs[k / 4], values).value as int
            },
    )
}

/// A boolean flag satisfies the boolean range residual.
pub proof fn lemma_bool_residual_zero(x: M31)
    requires
        x.value < 2,
    ensures
        bool_residual(x) == (M31 { value: 0 }),
{
    if x.value == 0 {
        assert(m_mul(x, x).value == 0);
        assert(bool_residual(x).value == 0);
    } else {
        assert(m_mul(x, x).value == 1);
        assert(bool_residual(x).value == 0);
    }
}

/// A ternary flag satisfies the ternary range residual.
pub proof fn lemma_trit_residual_zero(x: M31)
    requires
        x.value < 3,
    ensures
        trit_residual(x) == (M31 { value: 0 }),
{
    let p = crate::field::P as int;
    if x.value == 0 {
        assert(trit_residual(x).value == 0) by {
            assert(m_mul(m_sub(x, M31 { value: 2 }), m_sub(x, M31 { value: 1 })).value * 0 == 0);
        }
    } else if x.value == 1 {
        assert(trit_residual(x).value == 0) by {
            assert(m_sub(x, M31 { value: 1 }).value == 0);
            assert(m_sub(x, M31 { value: 2 }).value * 0 == 0);
            assert(m_mul(m_sub(x, M31 { value: 2 }), m_sub(x, M31 { value: 1 })).value == 0);
            assert(0 * x.value == 0);
        }
    } else {
        assert(trit_residual(x).value == 0) by {
            assert(m_sub(x, M31 { value: 2 }).value == 0);
            assert(0 * m_sub(x, M31 { value: 1 }).value == 0);
            assert(m_mul(m_sub(x, M31 { value: 2 }), m_sub(x, M31 { value: 1 })).value == 0);
            assert(0 * x.value == 0);
        }
    }
}

/// Turn each step into its trace row and the four addresses it reads,
/// rejecting the first step that cannot form a sound row.
#[verifier::rlimit(100)]
#[verifier::spinoff_prover]
fn build_rows(inputs: &Vec<VmState>, memory_trace_generator: &addr_to_f31::ClaimGenerator) -> (r:
    Result<(Vec<Vec<M31>>, Vec<(usize, usize, usize, usize)>), TraceGenError>)
    requires
        memory_trace_generator.wf(),
        forall|i: int| 0 <= i < inputs@.len() ==> (#[trigger] inputs@[i]).wf(),
    ensures
        r is Ok <==> (forall|i: int|
            0 <= i < inputs@.len() ==> row_ok(
                #[trigger] inputs@[i],
                memory_trace_generator.values@,
            )),
        r matches Ok(o) ==> {
            &&& o.0@.len() == inputs@.len()
            &&& o.1@.len() == inputs@.len()
            &&& (forall|i: int|
                0 <= i < inputs@.len() ==> (#[trigger] o.0@[i])@ == spec_row(
                    inputs@[i],
                    memory_trace_generator.values@,
                ))
            &&& (forall|i: int|
                0 <= i < inputs@.len() ==> (#[trigger] o.1@[i]) == (
                inputs@[i].pc as usize,
                spec_dst_addr(inputs@[i], memory_trace_generator.values@).value as usize,
                spec_lhs_addr(inputs@[i], memory_trace_generator.values@).value as usize,
                spec_rhs_addr(inputs@[i], memory_trace_generator.values@).value as usize,
            ))
            &&& (forall|i: int|
                0 <= i < inputs@.len() ==> (#[trigger] o.1@[i]).0
                    < memory_trace_generator.values@.len() && o.1@[i].1
                    < memory_trace_generator.values@.len() && o.1@[i].2
                    < memory_trace_generator.values@.len() && o.1@[i].3
                    < memory_trace_generator.values@.len())
        },
        r matches Err(e) ==> exists|i: int|
            0 <= i < inputs@.len() && !row_ok(
                #[trigger] inputs@[i],
                memory_trace_generator.values@,
            ) && e == spec_row_error(inputs@[i], memory_trace_generator.values@),
{
    let ghost values = memory_trace_generator.values@;
    let n = inputs.len();
    let table_len = memory_trace_generator.values.len();
    let zero = M31 { value: 0 };
    let one = M31 { value: 1 };
    let mut rows: Vec<Vec<M31>> = Vec::new();
    let mut addrs: Vec<(usize, usize, usize, usize)> = Vec::new();
    let mut i: usize = 0;
    while i < n
        invariant
            i <= n,
            n == inputs@.len(),
            table_len == values.len(),
            forall|k: int| 0 <= k < n ==> (#[trigger] inputs@[k]).wf(),
            memory_trace_generator.wf(),
            memory_trace_generator.values@ == values,
            table_len == values.len(),
            zero == (M31 { value: 0 }),
            one == (M31 { value: 1 }),
            rows@.len() == i,
            addrs@.len() == i,
            forall|k: int| 0 <= k < i ==> row_ok(#[trigger] inputs@[k], values),
            forall|k: int|
                0 <= k < i ==> (#[trigger] rows@[k])@ == spec_row(inputs@[k], values),
            forall|k: int|
                0 <= k < i ==> (#[trigger] addrs@[k]) == (
                inputs@[k].pc as usize,
                spec_dst_addr(inputs@[k], values).value as usize,
                spec_lhs_addr(inputs@[k], values).value as usize,
                spec_rhs_addr(inputs@[k], values).value as usize,
            ),
        decreases n - i,
    {
        let s = inputs[i];
        let ap = M31 { value: s.ap };
        let fp = M31 { value: s.fp };
        let pc = M31 { value: s.pc };
        if !((s.pc as usize) < table_len) {
            return Err(TraceGenError::AddressOutOfRange { addr: s.pc });
        }
        let opcode = memory_trace_generator.deduce_output(pc).a.a;
        let word = opcode.sub(M31 { value: INSTRUCTION_BASE });
        let flags = match crate::gadgets::decode_word(word) {
            Ok(flags) => flags,
            Err(e) => {
                return Err(TraceGenError::Decode { word: e.word });
            },
        };
        let is_mul = M31 { value: flags.is_mul };
        let reg0 = M31 { value: flags.reg0 };
        let reg1 = M31 { value: flags.reg1 };
        let reg2 = M31 { value: flags.reg2 };
        let appp = M31 { value: flags.appp };
        let dst_addr = reg0.mul(fp).add(one.sub(reg0).mul(ap)).add(zero);
        let lhs_addr = crate::gadgets::select_trit(
            reg1,
            ap,
            fp,
            M31 { value: IMM_BASE },
        ).add(zero);
        let rhs_addr = reg2.mul(fp).add(one.sub(reg2).mul(ap)).add(zero);
        proof {
            assert(dst_addr == spec_dst_addr(s, values));
            assert(lhs_addr == spec_lhs_addr(s, values));
            assert(rhs_addr == spec_rhs_addr(s, values));
        }
        if !((dst_addr.value as usize) < table_len) {
            return Err(TraceGenError::AddressOutOfRange { addr: dst_addr.value });
        }
        if !((lhs_addr.value as usize) < table_len) {
            return Err(TraceGenError::AddressOutOfRange { addr: lhs_addr.value });
        }
        if !((rhs_addr.value as usize) < table_len) {
            return Err(TraceGenError::AddressOutOfRange { addr: rhs_addr.value });
        }
        let dst0 = memory_trace_generator.deduce_output(dst_addr).a.a;
        let lhs0 = memory_trace_generator.deduce_output(lhs_addr).a.a;
        let rhs0 = memory_trace_generator.deduce_output(rhs_addr).a.a;
        let expected = if flags.is_mul == 1 {
            lhs0.mul(rhs0)
        } else {
            lhs0.add(rhs0)
        };
        if dst0.value != expected.value {
            return Err(TraceGenError::OperandMismatch { dst_addr: dst_addr.value });
        }
        let mut row: Vec<M31> = Vec::new();
        row.push(ap);
        row.push(fp);
        row.push(pc);
        row.push(is_mul);
        row.push(reg0);
        row.push(reg1);
        row.push(reg2);
        row.push(appp);
        row.push(zero);
        row.push(zero);
        row.push(zero);
        row.push(dst_addr);
        row.push(lhs_addr);
        row.push(rhs_addr);
        row.push(dst0);
        row.push(zero);
        row.push(zero);
        row.push(zero);
        row.push(lhs0);
        row.push(zero);
        row.push(zero);
        row.push(zero);
        row.push(rhs0);
        row.push(zero);
        row.push(zero);
        row.push(zero);
        proof {
            assert(row@ =~= spec_row(s, values));
            assert(row_ok(s, values));
        }
        rows.push(row);
        addrs.push(
            (
                s.pc as usize,
                dst_addr.value as usize,
                lhs_addr.value as usize,
                rhs_addr.value as usize,
            ),
        );
        i = i + 1;
    }
    proof {
        assert(forall|i: int|
            0 <= i < inputs@.len() ==> row_ok(#[trigger] inputs@[i], values));
    }
    Ok((rows, addrs))
}

/// Builds the add/mul component's trace from the recorded machine
/// states.
pub struct ClaimGenerator {
    /// One machine state per row, padded to a power-of-two count by
    /// repeating the first state.
    pub inputs: Vec<VmState>,
}

impl ClaimGenerator {
    /// A power-of-two number of reduced states.
    pub open spec fn wf(self) -> bool {
        &&& 1 <= self.inputs@.len() <= 0x8000_0000
        &&& exists|lg: nat| (#[trigger] pow2(lg)) == self.inputs@.len()
        &&& forall|i: int| 0 <= i < self.inputs@.len() ==> (#[trigger] self.inputs@[i]).wf()
    }

    /// Take the recorded states of every add/mul step and pad them to
    /// the next power of two by repeating the first.
    pub fn new(inputs: Vec<VmState>) -> (r: ClaimGenerator)
        requires
            1 <= inputs@.len() <= 0x4000_0000,
            forall|i: int| 0 <= i < inputs@.len() ==> (#[trigger] inputs@[i]).wf(),
        ensures
            r.wf(),
            r.inputs@.len() >= inputs@.len(),
            r.inputs@.len() < 2 * inputs@.len(),
            forall|i: int| 0 <= i < inputs@.len() ==> (#[trigger] r.inputs@[i]) == inputs@[i],
            forall|i: int|
                inputs@.len() <= i < r.inputs@.len() ==> (#[trigger] r.inputs@[i]) == inputs@[0],
    {
        let n = inputs.len();
        let (size, log) = next_power_of_two(n);
        let first = inputs[0];
        let ghost orig = inputs@;
        let mut padded = inputs;
        while padded.len() < size
            invariant
                n >= 1,
                n == orig.len(),
                first == orig[0],
                n <= padded@.len() <= size,
                forall|i: int| 0 <= i < n ==> (#[trigger] padded@[i]) == orig[i],
                forall|i: int| n <= i < padded@.len() ==> (#[trigger] padded@[i]) == first,
            decreases size - padded.len(),
        {
            padded.push(first);
        }
        proof {
            vstd::arithmetic::power2::lemma2_to64();
            if log > 0 {
                vstd::arithmetic::power2::lemma_pow2_unfold(log as nat);
            }
            assert(padded@.len() < 2 * n);
        }
        ClaimGenerator { inputs: padded }
    }

    /// Write the component's main trace, one 26-column row per step,
    /// and register every address read with the memory component's
    /// usage counters. A step whose instruction word is malformed,
    /// whose addresses fall outside the table, or whose destination
    /// value contradicts the operation is rejected before any counter
    /// changes.
    #[verifier::rlimit(100)]
    #[verifier::spinoff_prover]
    pub fn write_trace(&self, memory_trace_generator: &mut addr_to_f31::ClaimGenerator) -> (r:
        Result<(Claim, InteractionClaimGenerator), TraceGenError>)
        requires
            self.wf(),
            old(memory_trace_generator).wf(),
            forall|j: int|
                0 <= j < old(memory_trace_generator).multiplicities@.len() ==> (#[trigger] old(
                    memory_trace_generator,
                ).multiplicities@[j]) + 4 * self.inputs@.len() <= u32::MAX,
        ensures
            final(memory_trace_generator).wf(),
            final(memory_trace_generator).values == old(memory_trace_generator).values,
            r is Ok <==> (forall|i: int|
                0 <= i < self.inputs@.len() ==> row_ok(
                    #[trigger] self.inputs@[i],
                    old(memory_trace_generator).values@,
                )),
            r matches Ok(o) ==> {
                &&& o.0.n_calls == self.inputs@.len()
                &&& o.1.wf()
                &&& o.1.rows@.len() == self.inputs@.len()
                &&& (forall|i: int|
                    0 <= i < self.inputs@.len() ==> (#[trigger] o.1.rows@[i])@ == spec_row(
                        self.inputs@[i],
                        old(memory_trace_generator).values@,
                    ))
                &&& final(memory_trace_generator).multiplicities@ == apply_lookups(
                    old(memory_trace_generator).multiplicities@,
                    add_mul_lookups(self.inputs@, old(memory_trace_generator).values@),
                )
            },
            r matches Err(e) ==> {
                &&& *final(memory_trace_generator) == *old(memory_trace_generator)
                &&& exists|i: int|
                    0 <= i < self.inputs@.len() && !row_ok(
                        #[trigger] self.inputs@[i],
                        old(memory_trace_generator).values@,
                    ) && e == spec_row_error(self.inputs@[i], old(memory_trace_generator).values@)
            },
    {
        let ghost values = memory_trace_generator.values@;
        let ghost old_mults = memory_trace_generator.multiplicities@;
        let n = self.inputs.len();
        let built = build_rows(&self.inputs, memory_trace_generator);
        let (rows, addrs) = match built {
            Ok(pair) => pair,
            Err(e) => {
                return Err(e);
            },
        };
        register_lookups(&self.inputs, &addrs, memory_trace_generator);
        proof {
            assert(self.inputs@.subrange(0, n as int) =~= self.inputs@);
        }
        Ok((Claim { n_calls: n }, InteractionClaimGenerator { rows }))
    }
}

/// Register the collected addresses with the memory component's usage
/// counters, four per step, in step order.
#[verifier::rlimit(100)]
#[verifier::spinoff_prover]
fn register_lookups(
    inputs: &Vec<VmState>,
    addrs: &Vec<(usize, usize, usize, usize)>,
    memory_trace_generator: &mut addr_to_f31::ClaimGenerator,
)
    requires
        old(memory_trace_generator).wf(),
        addrs@.len() == inputs@.len(),
        forall|j: int|
            0 <= j < inputs@.len() ==> (#[trigger] addrs@[j]) == (
            inputs@[j].pc as usize,
            spec_dst_addr(inputs@[j], old(memory_trace_generator).values@).value as usize,
            spec_lhs_addr(inputs@[j], old(memory_trace_generator).values@).value as usize,
            spec_rhs_addr(inputs@[j], old(memory_trace_generator).values@).value as usize,
        ),
        forall|j: int|
            0 <= j < inputs@.len() ==> (#[trigger] addrs@[j]).0 < old(
                memory_trace_generator,
            ).values@.len() && addrs@[j].1 < old(memory_trace_generator).values@.len()
                && addrs@[j].2 < old(memory_trace_generator).values@.len() && addrs@[j].3 < old(
                memory_trace_generator,
            ).values@.len(),
        forall|j: int|
            0 <= j < old(memory_trace_generator).multiplicities@.len() ==> (#[trigger] old(
                memory_trace_generator,
            ).multiplicities@[j]) + 4 * inputs@.len() <= u32::MAX,
    ensures
        final(memory_trace_generator).wf(),
        final(memory_trace_generator).values == old(memory_trace_generator).values,
        final(memory_trace_generator).multiplicities@ == apply_lookups(
            old(memory_trace_generator).multiplicities@,
            add_mul_lookups(inputs@, old(memory_trace_generator).values@),
        ),
{
    let ghost values = memory_trace_generator.values@;
    let ghost old_mults = memory_trace_generator.multiplicities@;
    let n = inputs.len();
    let mut k: usize = 0;
    proof {
        assert(add_mul_lookups(inputs@.subrange(0, 0), values) =~= Seq::<int>::empty());
    }
    while k < n
        invariant
                        k <= n,
            n == inputs@.len(),
            memory_trace_generator.wf(),
            memory_trace_generator.values@ == values,
            memory_trace_generator.values == old(memory_trace_generator).values,
            memory_trace_generator.multiplicities@.len() == old_mults.len(),
            old_mults == old(memory_trace_generator).multiplicities@,
            addrs@.len() == n,
            forall|j: int|
                0 <= j < n ==> (#[trigger] addrs@[j]) == (
                inputs@[j].pc as usize,
                spec_dst_addr(inputs@[j], values).value as usize,
                spec_lhs_addr(inputs@[j], values).value as usize,
                spec_rhs_addr(inputs@[j], values).value as usize,
            ),
            forall|j: int|
                0 <= j < n ==> (#[trigger] addrs@[j]).0 < values.len() && addrs@[j].1
                    < values.len() && addrs@[j].2 < values.len() && addrs@[j].3
                    < values.len(),
            forall|j: int|
                0 <= j < old_mults.len() ==> (#[trigger] old_mults[j]) + 4 * n <= u32::MAX,
            forall|j: int|
                0 <= j < old_mults.len()
                    ==> (#[trigger] memory_trace_generator.multiplicities@[j]) <= old_mults[j]
                    + 4 * k,
            memory_trace_generator.multiplicities@ == apply_lookups(
                old_mults,
                add_mul_lookups(inputs@.subrange(0, k as int), values),
            ),
        decreases n - k,
    {
        let ghost ls_k = add_mul_lookups(inputs@.subrange(0, k as int), values);
        let ghost prev = memory_trace_generator.multiplicities@;
        let (a_pc, a_dst, a_lhs, a_rhs) = addrs[k];
        let ghost a1 = a_pc as int;
        let ghost a2 = a_dst as int;
        let ghost a3 = a_lhs as int;
        let ghost a4 = a_rhs as int;
        memory_trace_generator.add_inputs(a_pc);
        memory_trace_generator.add_inputs(a_dst);
        memory_trace_generator.add_inputs(a_lhs);
        memory_trace_generator.add_inputs(a_rhs);
        proof {
            assert(memory_trace_generator.multiplicities@ == bump(
                bump(bump(bump(prev, a1), a2), a3),
                a4,
            ));
            addr_to_f31::lemma_apply_lookups_four(prev, a1, a2, a3, a4);
            addr_to_f31::lemma_apply_lookups_concat(old_mults, ls_k, seq![a1, a2, a3, a4]);
            assert(add_mul_lookups(inputs@.subrange(0, k + 1), values) =~= ls_k + seq![
                a1,
                a2,
                a3,
                a4,
            ]);
        }
        k = k + 1;
    }
    proof {
        assert(inputs@.subrange(0, n as int) =~= inputs@);
    }
}

/// The six fraction terms of row `i` inside the flattened term list
/// are the six terms of that row alone.
proof fn lemma_row_terms_slice(mem: Relation, state: Relation, rows: Seq<Seq<M31>>, i: int)
    requires
        0 <= i < rows.len(),
    ensures
        forall|j: int|
            0 <= j < 6 ==> add_mul_terms(mem, state, rows)[6 * i + j] == #[trigger] row_term(
                mem,
                state,
                rows[i],
                j,
            ),
{
    assert forall|j: int|
        0 <= j < 6 implies add_mul_terms(mem, state, rows)[6 * i + j] == #[trigger] row_term(
        mem,
        state,
        rows[i],
        j,
    ) by {
        assert((6 * i + j) / 6 == i && (6 * i + j) % 6 == j);
    }
}

/// Extending the summed prefix by the six terms of one row adds their
/// six fractions in order.
proof fn lemma_frac_sum_six(terms: Seq<(QM31, QM31)>, k: int)
    requires
        0 <= k,
        k + 6 <= terms.len(),
    ensures
        frac_sum(terms.subrange(0, k + 6)) == q_add(
            q_add(
                q_add(
                    q_add(
                        q_add(
                            q_add(frac_sum(terms.subrange(0, k)), frac_of(terms[k])),
                            frac_of(terms[k + 1]),
                        ),
                        frac_of(terms[k + 2]),
                    ),
                    frac_of(terms[k + 3]),
                ),
                frac_of(terms[k + 4]),
            ),
            frac_of(terms[k + 5]),
        ),
{
    crate::logup::lemma_frac_sum_snoc(terms, k);
    crate::logup::lemma_frac_sum_snoc(terms, k + 1);
    crate::logup::lemma_frac_sum_snoc(terms, k + 2);
    crate::logup::lemma_frac_sum_snoc(terms, k + 3);
    crate::logup::lemma_frac_sum_snoc(terms, k + 4);
    crate::logup::lemma_frac_sum_snoc(terms, k + 5);
}

/// Add the six fractions of one row to a running sum.
#[verifier::rlimit(100)]
#[verifier::spinoff_prover]
fn add_row_fractions(
    acc: QM31,
    memory_relation: &Relation,
    state_relation: &Relation,
    row: &Vec<M31>,
) -> (r: QM31)
    requires
        acc.wf(),
        memory_relation.wf(),
        memory_relation.alpha_powers@.len() >= 5,
        state_relation.wf(),
        state_relation.alpha_powers@.len() >= 3,
        row@.len() == N_TRACE_CELLS,
        forall|i: int| 0 <= i < row@.len() ==> (#[trigger] row@[i]).wf(),
    ensures
        r == q_add(
            q_add(
                q_add(
                    q_add(
                        q_add(
                            q_add(
                                acc,
                                frac_of(row_term(*memory_relation, *state_relation, row@, 0)),
                            ),
                            frac_of(row_term(*memory_relation, *state_relation, row@, 1)),
                        ),
                        frac_of(row_term(*memory_relation, *state_relation, row@, 2)),
                    ),
                    frac_of(row_term(*memory_relation, *state_relation, row@, 3)),
                ),
                frac_of(row_term(*memory_relation, *state_relation, row@, 4)),
            ),
            frac_of(row_term(*memory_relation, *state_relation, row@, 5)),
        ),
        r.wf(),
{
    let fr = eval_fractions(memory_relation, state_relation, row);
    proof {
        assert forall|j: int| 0 <= j < 6 implies fr@[j] == row_term(
            *memory_relation,
            *state_relation,
            row@,
            j,
        ) by {
            assert(j / 6 == 0 && j % 6 == j);
        }
    }
    let mut acc = acc;
    let f0 = fr[0];
    let f1 = fr[1];
    let f2 = fr[2];
    let f3 = fr[3];
    let f4 = fr[4];
    let f5 = fr[5];
    acc = add_frac(acc, f0.0, f0.1);
    acc = add_frac(acc, f1.0, f1.1);
    acc = add_frac(acc, f2.0, f2.1);
    acc = add_frac(acc, f3.0, f3.1);
    acc = add_frac(acc, f4.0, f4.1);
    acc = add_frac(acc, f5.0, f5.1);
    acc
}

/// Builds the add/mul component's interaction trace: six signed
/// fractions per row.
pub struct InteractionClaimGenerator {
    /// The trace rows, in order.
    pub rows: Vec<Vec<M31>>,
}

impl InteractionClaimGenerator {
    /// A power-of-two number of full-width rows with reduced values.
    pub open spec fn wf(self) -> bool {
        &&& 1 <= self.rows@.len() <= 0x8000_0000
        &&& exists|lg: nat| (#[trigger] pow2(lg)) == self.rows@.len()
        &&& forall|i: int| 0 <= i < self.rows@.len() ==> (#[trigger] self.rows@[i])@.len()
            == N_TRACE_CELLS
        &&& forall|i: int, j: int|
            0 <= i < self.rows@.len() && 0 <= j < N_TRACE_CELLS ==> (#[trigger] self.rows@[i]@[
                j]).wf()
    }

    /// An empty generator.
    pub fn with_capacity(capacity: usize) -> (r: InteractionClaimGenerator)
        ensures
            r.rows@.len() == 0,
    {
        InteractionClaimGenerator { rows: Vec::new() }
    }

    /// Total the component's signed lookup fractions: for each row, its
    /// six entries in order.
    #[verifier::rlimit(100)]
    #[verifier::spinoff_prover]
    pub fn write_interaction_trace(
        &self,
        memory_relation: &Relation,
        state_relation: &Relation,
    ) -> (r: InteractionClaim)
        requires
            self.wf(),
            memory_relation.wf(),
            memory_relation.alpha_powers@.len() >= 5,
            state_relation.wf(),
            state_relation.alpha_powers@.len() >= 3,
        ensures
            pow2(r.log_size as nat) == self.rows@.len(),
            r.claimed_sum == frac_sum(
                add_mul_terms(*memory_relation, *state_relation, rows_view(self.rows@)),
            ),
            r.claimed_sum.wf(),
    {
        let n = self.rows.len();
        let (_size, log_size) = next_power_of_two(n);
        proof {
            let lg = choose|lg: nat| (#[trigger] pow2(lg)) == self.rows@.len();
            crate::util::lemma_pow2_exact(n as nat, lg, log_size as nat);
        }
        let ghost terms = add_mul_terms(*memory_relation, *state_relation, rows_view(self.rows@));
        let mut acc = QM31::zero();
        let mut i: usize = 0;
        proof {
            assert(terms.subrange(0, 0) =~= Seq::<(QM31, QM31)>::empty());
        }
        while i < n
            invariant
                self.wf(),
                memory_relation.wf(),
                memory_relation.alpha_powers@.len() >= 5,
                state_relation.wf(),
                state_relation.alpha_powers@.len() >= 3,
                i <= n,
                n == self.rows@.len(),
                terms == add_mul_terms(
                    *memory_relation,
                    *state_relation,
                    rows_view(self.rows@),
                ),
                terms.len() == 6 * n,
                acc == frac_sum(terms.subrange(0, 6 * i)),
                acc.wf(),
            decreases n - i,
        {
            proof {
                assert(rows_view(self.rows@)[i as int] == self.rows@[i as int]@);
                lemma_row_terms_slice(
                    *memory_relation,
                    *state_relation,
                    rows_view(self.rows@),
                    i as int,
                );
                lemma_frac_sum_six(terms, 6 * i);
            }
            acc = add_row_fractions(acc, memory_relation, state_relation, &self.rows[i]);
            i = i + 1;
        }
        proof {
            assert(terms.subrange(0, 6 * (n as int)) =~= terms);
        }
        InteractionClaim { log_size, claimed_sum: acc }
    }
}

} // verus!
