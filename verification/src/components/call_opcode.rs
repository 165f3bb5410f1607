//! The call opcode component.
//!
//! The constraint side mirrors the ret component's current shape: each
//! row asserts, through the memory relation, that the call instruction
//! word is stored at `pc` and that two frame values are stored below
//! the frame pointer. The trace generator for this opcode is not built
//! yet; only the constraint-side description exists.

use vstd::prelude::*;

use vstd::arithmetic::power2::pow2;

use crate::channel::Transcript;
use crate::extension::{q_one, QM31};
use crate::field::{m_sub, M31};
use crate::relations::{spec_combine, Relation};
use crate::util::{next_power_of_two, repeat_u32};

verus! {

/// Number of main-trace columns.
pub const CALL_N_TRACE_CELLS: usize = 9;

/// The instruction word of the call opcode.
pub const CALL_INSTRUCTION: u32 = 171;

/// Number of base-field coordinates of a secure-field element.
pub const SECURE_EXTENSION_DEGREE: usize = 4;

/// One of the three memory tuples of a row: the instruction word at
/// `pc`, then the values at `fp - 1` and `fp - 2`.
pub open spec fn call_tuple(r: Seq<M31>, which: int) -> Seq<M31> {
    if which == 0 {
        seq![r[0], M31 { value: CALL_INSTRUCTION }]
    } else if which == 1 {
        seq![m_sub(r[2], M31 { value: 1 }), r[3]]
    } else {
        seq![m_sub(r[2], M31 { value: 2 }), r[4]]
    }
}

/// The signed fractions one row contributes: three entries with
/// coefficient one over their folded memory tuples.
pub open spec fn call_terms(rel: Relation, r: Seq<M31>) -> Seq<(QM31, QM31)> {
    Seq::new(3, |k: int| (q_one(), spec_combine(rel, call_tuple(r, k))))
}

/// The public statement of this component's trace shape.
#[derive(Clone, Copy, PartialEq, Eq, Structural, Debug)]
pub struct Claim {
    /// The number of call rows, padding included.
    pub n_rets: usize,
}

impl Claim {
    /// Feed the claim's canonical encoding to the transcript.
    pub fn mix_into(&self, channel: &mut Transcript)
        requires
            self.n_rets <= u64::MAX,
        ensures
            final(channel).data@ == old(channel).data@.push(self.n_rets as u64),
    {
        channel.mix_u64(self.n_rets as u64);
    }

    /// The log heights of this component's columns, by commitment
    /// phase: main columns, interaction columns, then the fixed column.
    pub fn log_sizes(&self) -> (r: (u32, Vec<Vec<u32>>))
        requires
            1 <= self.n_rets <= usize::MAX / 2 + 1,
        ensures
            pow2(r.0 as nat) >= self.n_rets,
            r.0 > 0 ==> pow2((r.0 - 1) as nat) < self.n_rets,
            r.0 as nat == crate::util::padded_log(self.n_rets as nat),
            r.1@.len() == 3,
            r.1@[0].len() == CALL_N_TRACE_CELLS,
            r.1@[1].len() == SECURE_EXTENSION_DEGREE * 3,
            r.1@[2].len() == 1,
            forall|t: int, i: int|
                0 <= t < 3 && 0 <= i < r.1@[t].len() ==> r.1@[t][i] == r.0,
    {
        let (_size, log_size) = next_power_of_two(self.n_rets);
        let mut r: Vec<Vec<u32>> = Vec::new();
        r.push(repeat_u32(log_size, CALL_N_TRACE_CELLS));
        r.push(repeat_u32(log_size, SECURE_EXTENSION_DEGREE * 3));
        r.push(repeat_u32(log_size, 1));
        (log_size, r)
    }
}

/// The public statement of this component's lookup total.
#[derive(Clone, Copy, PartialEq, Eq, Structural, Debug)]
pub struct InteractionClaim {
    /// Log of the number of rows.
    pub log_size: u32,
    /// The total of the signed lookup fractions this component emits.
    pub claimed_sum: QM31,
}

impl InteractionClaim {
    /// Feed the claim's canonical encoding to the transcript.
    pub fn mix_into(&self, channel: &mut Transcript)
        ensures
            final(channel).data@ == old(channel).data@ + seq![
                self.claimed_sum.a.a.value as u64,
                self.claimed_sum.a.b.value as u64,
                self.claimed_sum.b.a.value as u64,
                self.claimed_sum.b.b.value as u64,
            ],
    {
        channel.mix_felt(self.claimed_sum);
    }
}

/// The constraint-side description of the component.
pub struct Eval {
    /// Log of the number of rows.
    pub log_n_rows: u32,
    /// The memory relation shared with the memory component.
    pub memory_lookup: Relation,
    /// The total this component claims for its lookup fractions.
    pub claimed_sum: QM31,
}

impl Eval {
    /// Assemble the component description from its public claims and
    /// the drawn relation.
    pub fn new(ret_claim: Claim, memory_lookup: Relation, interaction_claim: InteractionClaim)
        -> (r: Eval)
        requires
            1 <= ret_claim.n_rets <= usize::MAX / 2 + 1,
        ensures
            pow2(r.log_n_rows as nat) >= ret_claim.n_rets,
            r.log_n_rows > 0 ==> pow2((r.log_n_rows - 1) as nat) < ret_claim.n_rets,
            r.log_n_rows as nat == crate::util::padded_log(ret_claim.n_rets as nat),
            r.memory_lookup == memory_lookup,
            r.claimed_sum == interaction_claim.claimed_sum,
    {
        let (_size, log_n_rows) = next_power_of_two(ret_claim.n_rets);
        Eval { log_n_rows, memory_lookup, claimed_sum: interaction_claim.claimed_sum }
    }

    /// The log height of the component's trace.
    pub fn log_size(&self) -> (r: u32)
        ensures
            r == self.log_n_rows,
    {
        self.log_n_rows
    }

    /// The highest constraint degree, as a log bound.
    pub fn max_constraint_log_degree_bound(&self) -> (r: u32)
        requires
            self.log_n_rows < u32::MAX,
        ensures
            r == self.log_n_rows + 1,
    {
        self.log_n_rows + 1
    }

    /// Evaluate the component on one row of its main trace: it emits
    /// one memory entry for the instruction word at `pc` and one for
    /// each of the two frame values below the frame pointer.
    pub fn evaluate(&self, row: &Vec<M31>) -> (r: Vec<(QM31, QM31)>)
        requires
            self.memory_lookup.wf(),
            row@.len() == CALL_N_TRACE_CELLS,
            forall|i: int| 0 <= i < row@.len() ==> (#[trigger] row@[i]).wf(),
        ensures
            r@ == call_terms(self.memory_lookup, row@),
    {
        let pc = row[0];
        let fp = row[2];
        let one_q = QM31::from_m31(M31 { value: 1 });
        let mut tuple0: Vec<M31> = Vec::new();
        tuple0.push(pc);
        tuple0.push(M31 { value: CALL_INSTRUCTION });
        let mut tuple1: Vec<M31> = Vec::new();
        tuple1.push(fp.sub(M31 { value: 1 }));
        tuple1.push(row[3]);
        let mut tuple2: Vec<M31> = Vec::new();
        tuple2.push(fp.sub(M31 { value: 2 }));
        tuple2.push(row[4]);
        proof {
            assert(tuple0@ =~= call_tuple(row@, 0));
            assert(tuple1@ =~= call_tuple(row@, 1));
            assert(tuple2@ =~= call_tuple(row@, 2));
        }
        let mut r: Vec<(QM31, QM31)> = Vec::new();
        r.push((one_q, self.memory_lookup.combine(&tuple0)));
        r.push((one_q, self.memory_lookup.combine(&tuple1)));
        r.push((one_q, self.memory_lookup.combine(&tuple2)));
        proof {
            assert(r@ =~= call_terms(self.memory_lookup, row@));
        }
        r
    }
}

} // verus!
