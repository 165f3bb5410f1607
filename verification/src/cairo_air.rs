//! The top-level claim and interaction protocol.
//!
//! The orchestration runs in fixed order: compute every component's
//! claim from the input sizes and feed it to the transcript; draw the
//! folding relations from the transcript's challenges; produce every
//! component's interaction claim; check that the global sum of all
//! signed lookup fractions is zero; then hand the committed traces to
//! the generic backend. The transcript hashing and the backend live
//! outside this crate: the claim computation, trace generation,
//! interaction totals and the global soundness check are all here.

use vstd::prelude::*;

use vstd::arithmetic::power2::pow2;

use crate::channel::Transcript;
use crate::components::addr_to_f31;
use crate::components::addr_to_f31::{
    apply_lookups, mem_terms, mem_tuple, table_values, MEMORY_ADDRESS_BOUND,
};
use crate::components::ret_opcode;
use crate::components::ret_opcode::{ret_lookups, ret_terms, spec_ret_row};
use crate::extension::{q_add, q_one, q_zero, QM31};
use crate::field::M31;
use crate::logup::{add_frac, frac_sum};
use crate::mem::Memory;
use crate::relations::{spec_combine, Relation, N_MEMORY_ELEMS, STATE_SIZE};
use crate::state::VmState;
use crate::util::{padded_log, push_repeat, repeat_seq};

verus! {

/// The execution record consumed by the prover: the states of every
/// ret step, the boundary states, the memory image, and the addresses
/// whose values are public.
pub struct CairoInput {
    /// One machine state per ret step, in execution order.
    pub ret: Vec<VmState>,
    /// The machine state before the first step.
    pub initial_state: VmState,
    /// The machine state after the last step.
    pub final_state: VmState,
    /// The memory image.
    pub mem: Memory,
    /// The addresses whose values are externally asserted.
    pub public_mem_addresses: Vec<u32>,
}

impl CairoInput {
    /// The memory is well formed and the recorded states are reduced.
    pub open spec fn wf(self) -> bool {
        &&& self.mem.wf()
        &&& forall|i: int| 0 <= i < self.ret@.len() ==> (#[trigger] self.ret@[i]).wf()
        &&& self.initial_state.wf()
        &&& self.final_state.wf()
    }
}

/// The public part of a proof: the shape claims and the interaction
/// claims of every component. The backend's own proof object travels
/// beside it.
#[derive(Clone, PartialEq, Eq, Debug)]
pub struct CairoProof {
    /// The per-component shape claims and the public input.
    pub claim: CairoClaim,
    /// The per-component lookup totals.
    pub interaction_claim: CairoInteractionClaim,
}

/// The top-level shape claim: every component's claim plus the public
/// memory and the boundary states.
#[derive(Clone, PartialEq, Eq, Debug)]
pub struct CairoClaim {
    /// The public addresses and the values claimed for them.
    pub public_memory: Vec<(M31, QM31)>,
    /// The machine state before the first step.
    pub initial_state: VmState,
    /// The machine state after the last step.
    pub final_state: VmState,
    /// The claims of the ret components.
    pub ret: Vec<ret_opcode::Claim>,
    /// The claim of the memory component.
    pub memory_id_to_value: addr_to_f31::Claim,
}

/// The canonical words of the ret claims, in order.
pub open spec fn ret_claims_encoding(rets: Seq<ret_opcode::Claim>) -> Seq<u64> {
    Seq::new(rets.len(), |i: int| rets[i].n_rets as u64)
}

/// One tree of the column log-heights of a ret component.
pub open spec fn ret_tree(c: ret_opcode::Claim, t: int) -> Seq<u32> {
    let log = padded_log(c.n_rets as nat) as u32;
    if t == 0 {
        repeat_seq(log, 5)
    } else if t == 1 {
        repeat_seq(log, 12)
    } else {
        repeat_seq(log, 1)
    }
}

/// One tree of the column log-heights of all ret components, in order.
pub open spec fn rets_tree(rets: Seq<ret_opcode::Claim>, t: int) -> Seq<u32>
    decreases rets.len(),
{
    if rets.len() == 0 {
        Seq::empty()
    } else {
        rets_tree(rets.drop_last(), t) + ret_tree(rets.last(), t)
    }
}

/// One tree of the column log-heights of the whole system: the ret
/// components' columns followed by the memory component's.
pub open spec fn cairo_tree(c: CairoClaim, t: int) -> Seq<u32> {
    let mem_log = c.memory_id_to_value.log_size;
    rets_tree(c.ret@, t) + (if t == 0 {
        repeat_seq(mem_log, 6)
    } else if t == 1 {
        repeat_seq(mem_log, 4)
    } else {
        repeat_seq(mem_log, 1)
    })
}

impl CairoClaim {
    /// The per-component claims are in range and the public values are
    /// reduced.
    pub open spec fn wf(self) -> bool {
        &&& forall|i: int|
            0 <= i < self.ret@.len() ==> 1 <= (#[trigger] self.ret@[i]).n_rets <= 0x8000_0000
        &&& forall|i: int|
            0 <= i < self.public_memory@.len() ==> (#[trigger] self.public_memory@[i]).0.wf()
                && self.public_memory@[i].1.wf()
    }

    /// Feed the claim's canonical encoding to the transcript: each ret
    /// claim's count, then the memory claim's log height.
    pub fn mix_into(&self, channel: &mut Transcript)
        ensures
            final(channel).data@ == old(channel).data@ + ret_claims_encoding(self.ret@) + seq![
                self.memory_id_to_value.log_size as u64,
            ],
    {
        let n = self.ret.len();
        let mut i: usize = 0;
        proof {
            assert(old(channel).data@ + ret_claims_encoding(self.ret@.subrange(0, 0)) =~= old(
                channel,
            ).data@);
        }
        while i < n
            invariant
                i <= n,
                n == self.ret@.len(),
                channel.data@ == old(channel).data@ + ret_claims_encoding(
                    self.ret@.subrange(0, i as int),
                ),
            decreases n - i,
        {
            let c = self.ret[i];
            c.mix_into(channel);
            proof {
                assert(old(channel).data@ + ret_claims_encoding(self.ret@.subrange(0, i + 1))
                    =~= (old(channel).data@ + ret_claims_encoding(
                    self.ret@.subrange(0, i as int),
                )).push(self.ret@[i as int].n_rets as u64));
            }
            i = i + 1;
        }
        proof {
            assert(self.ret@.subrange(0, n as int) =~= self.ret@);
        }
        self.memory_id_to_value.mix_into(channel);
    }

    /// The column log-heights of the whole system, by commitment
    /// phase: each component's columns concatenated in registration
    /// order.
    pub fn log_sizes(&self) -> (r: Vec<Vec<u32>>)
        requires
            self.wf(),
            self.ret@.len() <= 0x1000,
        ensures
            r@.len() == 3,
            forall|t: int| 0 <= t < 3 ==> (#[trigger] r@[t])@ == cairo_tree(*self, t),
    {
        let n = self.ret.len();
        let mut t0: Vec<u32> = Vec::new();
        let mut t1: Vec<u32> = Vec::new();
        let mut t2: Vec<u32> = Vec::new();
        let mut i: usize = 0;
        proof {
            assert(t0@ =~= rets_tree(self.ret@.subrange(0, 0), 0));
            assert(t1@ =~= rets_tree(self.ret@.subrange(0, 0), 1));
            assert(t2@ =~= rets_tree(self.ret@.subrange(0, 0), 2));
        }
        while i < n
            invariant
                self.wf(),
                i <= n,
                n == self.ret@.len(),
                n <= 0x1000,
                t0@.len() == 5 * i && t1@.len() == 12 * i && t2@.len() == i,
                t0@ == rets_tree(self.ret@.subrange(0, i as int), 0),
                t1@ == rets_tree(self.ret@.subrange(0, i as int), 1),
                t2@ == rets_tree(self.ret@.subrange(0, i as int), 2),
            decreases n - i,
        {
            let ghost prefix = self.ret@.subrange(0, i as int);
            let c = self.ret[i];
            let (_size, log) = crate::util::next_power_of_two(c.n_rets);
            push_repeat(&mut t0, log, 5);
            push_repeat(&mut t1, log, 12);
            push_repeat(&mut t2, log, 1);
            proof {
                assert(self.ret@.subrange(0, i + 1).drop_last() =~= prefix);
                assert(self.ret@.subrange(0, i + 1).last() == self.ret@[i as int]);
            }
            i = i + 1;
        }
        proof {
            assert(self.ret@.subrange(0, n as int) =~= self.ret@);
        }
        let mem_log = self.memory_id_to_value.log_size;
        push_repeat(&mut t0, mem_log, 6);
        push_repeat(&mut t1, mem_log, 4);
        push_repeat(&mut t2, mem_log, 1);
        let mut r: Vec<Vec<u32>> = Vec::new();
        r.push(t0);
        r.push(t1);
        r.push(t2);
        r
    }
}

/// The drawn folding relations, one per relation type.
pub struct CairoInteractionElements {
    /// The memory relation: tuples of one id and four value
    /// coordinates.
    pub memory_id_to_value_lookup: Relation,
    /// The machine-state relation: tuples of `ap`, `fp`, `pc`.
    pub state_lookup: Relation,
}

impl CairoInteractionElements {
    /// Both relations are well formed at their widths.
    pub open spec fn wf(self) -> bool {
        &&& self.memory_id_to_value_lookup.wf()
        &&& self.memory_id_to_value_lookup.alpha_powers@.len() == N_MEMORY_ELEMS
        &&& self.state_lookup.wf()
        &&& self.state_lookup.alpha_powers@.len() == STATE_SIZE
    }

    /// Build the relations from the challenges the caller drew from the
    /// transcript, one offset and one folding challenge per relation.
    pub fn draw(mem_z: QM31, mem_alpha: QM31, state_z: QM31, state_alpha: QM31) -> (r:
        CairoInteractionElements)
        requires
            mem_z.wf(),
            mem_alpha.wf(),
            state_z.wf(),
            state_alpha.wf(),
        ensures
            r.wf(),
            r.memory_id_to_value_lookup.z == mem_z,
            r.memory_id_to_value_lookup.alpha == mem_alpha,
            r.state_lookup.z == state_z,
            r.state_lookup.alpha == state_alpha,
    {
        CairoInteractionElements {
            memory_id_to_value_lookup: Relation::draw(mem_z, mem_alpha, N_MEMORY_ELEMS),
            state_lookup: Relation::draw(state_z, state_alpha, STATE_SIZE),
        }
    }
}

/// The top-level interaction claim: every component's lookup total.
#[derive(Clone, PartialEq, Eq, Debug)]
pub struct CairoInteractionClaim {
    /// The interaction claims of the ret components.
    pub ret: Vec<ret_opcode::InteractionClaim>,
    /// The interaction claim of the memory component.
    pub memory_id_to_value: addr_to_f31::InteractionClaim,
}

/// The four canonical words of one secure-field element.
pub open spec fn felt_words(x: QM31) -> Seq<u64> {
    seq![
        x.a.a.value as u64,
        x.a.b.value as u64,
        x.b.a.value as u64,
        x.b.b.value as u64,
    ]
}

/// The canonical words of the ret interaction claims, in order.
pub open spec fn ret_ics_encoding(ics: Seq<ret_opcode::InteractionClaim>) -> Seq<u64>
    decreases ics.len(),
{
    if ics.len() == 0 {
        Seq::empty()
    } else {
        ret_ics_encoding(ics.drop_last()) + felt_words(ics.last().claimed_sum)
    }
}

impl CairoInteractionClaim {
    /// Every claimed sum is reduced.
    pub open spec fn wf(self) -> bool {
        &&& forall|i: int|
            0 <= i < self.ret@.len() ==> (#[trigger] self.ret@[i]).claimed_sum.wf()
        &&& self.memory_id_to_value.claimed_sum.wf()
    }

    /// Feed the claim's canonical encoding to the transcript: each ret
    /// total, then the memory total.
    pub fn mix_into(&self, channel: &mut Transcript)
        ensures
            final(channel).data@ == old(channel).data@ + ret_ics_encoding(self.ret@)
                + felt_words(self.memory_id_to_value.claimed_sum),
    {
        let n = self.ret.len();
        let mut i: usize = 0;
        proof {
            assert(old(channel).data@ + ret_ics_encoding(self.ret@.subrange(0, 0)) =~= old(
                channel,
            ).data@);
        }
        while i < n
            invariant
                i <= n,
                n == self.ret@.len(),
                channel.data@ == old(channel).data@ + ret_ics_encoding(
                    self.ret@.subrange(0, i as int),
                ),
            decreases n - i,
        {
            let c = self.ret[i];
            c.mix_into(channel);
            proof {
                assert(self.ret@.subrange(0, i + 1).drop_last() =~= self.ret@.subrange(
                    0,
                    i as int,
                ));
                assert(self.ret@.subrange(0, i + 1).last() == self.ret@[i as int]);
                assert(old(channel).data@ + ret_ics_encoding(self.ret@.subrange(0, i + 1))
                    =~= (old(channel).data@ + ret_ics_encoding(self.ret@.subrange(0, i as int)))
                    + felt_words(self.ret@[i as int].claimed_sum));
            }
            i = i + 1;
        }
        proof {
            assert(self.ret@.subrange(0, n as int) =~= self.ret@);
        }
        self.memory_id_to_value.mix_into(channel);
    }
}

/// The fraction terms of the public memory: each public address's
/// value, folded through the memory relation with coefficient one —
/// an external consumption of that cell.
pub open spec fn public_memory_terms(rel: Relation, pm: Seq<(M31, QM31)>) -> Seq<(QM31, QM31)> {
    Seq::new(pm.len(), |i: int| (q_one(), spec_combine(rel, mem_tuple(pm[i].0, pm[i].1))))
}

/// A running sum extended by the ret components' claimed sums, in
/// order.
pub open spec fn ret_sums_from(acc: QM31, ics: Seq<ret_opcode::InteractionClaim>) -> QM31
    decreases ics.len(),
{
    if ics.len() == 0 {
        acc
    } else {
        ret_sums_from(q_add(acc, ics.first().claimed_sum), ics.drop_first())
    }
}

/// The global sum of the lookup argument: the public-memory fractions,
/// every registered component's claimed sum, and the memory
/// component's claimed sum.
pub open spec fn lookup_total(
    claim: CairoClaim,
    elements: CairoInteractionElements,
    interaction_claim: CairoInteractionClaim,
) -> QM31 {
    q_add(
        ret_sums_from(
            frac_sum(
                public_memory_terms(
                    elements.memory_id_to_value_lookup,
                    claim.public_memory@,
                ),
            ),
            interaction_claim.ret@,
        ),
        interaction_claim.memory_id_to_value.claimed_sum,
    )
}

/// The central soundness identity: the sum over the secure field of
/// every component's claimed sum plus the public-memory terms must be
/// the additive identity. It holds exactly when every memory access
/// any opcode performs is matched by one supply from the memory table,
/// weighted by its multiplicity.
pub fn lookup_sum_valid(
    claim: &CairoClaim,
    elements: &CairoInteractionElements,
    interaction_claim: &CairoInteractionClaim,
) -> (r: bool)
    requires
        claim.wf(),
        elements.wf(),
        interaction_claim.wf(),
    ensures
        r == (lookup_total(*claim, *elements, *interaction_claim) == q_zero()),
{
    let ghost terms = public_memory_terms(
        elements.memory_id_to_value_lookup,
        claim.public_memory@,
    );
    let mut sum = QM31::zero();
    let n = claim.public_memory.len();
    let mut i: usize = 0;
    let one_q = QM31::from_m31(M31 { value: 1 });
    proof {
        assert(terms.subrange(0, 0) =~= Seq::<(QM31, QM31)>::empty());
    }
    while i < n
        invariant
            claim.wf(),
            elements.wf(),
            one_q == q_one(),
            one_q.wf(),
            i <= n,
            n == claim.public_memory@.len(),
            terms == public_memory_terms(
                elements.memory_id_to_value_lookup,
                claim.public_memory@,
            ),
            sum == frac_sum(terms.subrange(0, i as int)),
            sum.wf(),
        decreases n - i,
    {
        let (addr, val) = claim.public_memory[i];
        let mut tuple: Vec<M31> = Vec::new();
        tuple.push(addr);
        tuple.push(val.a.a);
        tuple.push(val.a.b);
        tuple.push(val.b.a);
        tuple.push(val.b.b);
        proof {
            assert(tuple@ =~= mem_tuple(addr, val));
        }
        let denom = elements.memory_id_to_value_lookup.combine(&tuple);
        proof {
            crate::logup::lemma_frac_sum_snoc(terms, i as int);
        }
        sum = add_frac(sum, one_q, denom);
        i = i + 1;
    }
    proof {
        assert(terms.subrange(0, n as int) =~= terms);
    }
    let m = interaction_claim.ret.len();
    let mut j: usize = 0;
    let ghost pm_sum = sum;
    proof {
        assert(interaction_claim.ret@.subrange(0, m as int) =~= interaction_claim.ret@);
    }
    while j < m
        invariant
            interaction_claim.wf(),
            j <= m,
            m == interaction_claim.ret@.len(),
            ret_sums_from(sum, interaction_claim.ret@.subrange(j as int, m as int))
                == ret_sums_from(pm_sum, interaction_claim.ret@),
            sum.wf(),
        decreases m - j,
    {
        let ghost remaining = interaction_claim.ret@.subrange(j as int, m as int);
        proof {
            assert(remaining.first() == interaction_claim.ret@[j as int]);
            assert(remaining.drop_first() =~= interaction_claim.ret@.subrange(
                j + 1,
                m as int,
            ));
        }
        sum = sum.add(interaction_claim.ret[j].claimed_sum);
        j = j + 1;
    }
    proof {
        assert(interaction_claim.ret@.subrange(0, m as int) =~= interaction_claim.ret@);
        assert(interaction_claim.ret@.subrange(m as int, m as int) =~= Seq::<
            ret_opcode::InteractionClaim,
        >::empty());
    }
    let total = sum.add(interaction_claim.memory_id_to_value.claimed_sum);
    let zero = QM31::zero();
    total == zero
}

/// The constraint-side descriptions of every registered component.
pub struct CairoComponents {
    /// The ret components.
    pub ret: Vec<ret_opcode::Eval>,
    /// The memory component.
    pub memory_id_to_value: addr_to_f31::Eval,
}

impl CairoComponents {
    /// Assemble every component's description from the public claims
    /// and the drawn relations.
    pub fn new(
        cairo_claim: &CairoClaim,
        interaction_elements: &CairoInteractionElements,
        interaction_claim: &CairoInteractionClaim,
    ) -> (r: CairoComponents)
        requires
            cairo_claim.wf(),
            interaction_elements.wf(),
            cairo_claim.ret@.len() == interaction_claim.ret@.len(),
        ensures
            r.ret@.len() == cairo_claim.ret@.len(),
            forall|i: int|
                0 <= i < r.ret@.len() ==> {
                    let ev = #[trigger] r.ret@[i];
                    &&& ev.log_n_rows as nat == padded_log(cairo_claim.ret@[i].n_rets as nat)
                    &&& ev.lookup_elements.z
                        == interaction_elements.memory_id_to_value_lookup.z
                    &&& ev.lookup_elements.alpha
                        == interaction_elements.memory_id_to_value_lookup.alpha
                    &&& ev.lookup_elements.alpha_powers@
                        == interaction_elements.memory_id_to_value_lookup.alpha_powers@
                    &&& ev.claimed_sum == interaction_claim.ret@[i].claimed_sum
                },
            r.memory_id_to_value.log_n_rows == cairo_claim.memory_id_to_value.log_size,
            r.memory_id_to_value.claimed_sum
                == interaction_claim.memory_id_to_value.claimed_sum,
            r.memory_id_to_value.lookup_elements.z
                == interaction_elements.memory_id_to_value_lookup.z,
            r.memory_id_to_value.lookup_elements.alpha_powers@
                == interaction_elements.memory_id_to_value_lookup.alpha_powers@,
    {
        let n = cairo_claim.ret.len();
        let mut ret_components: Vec<ret_opcode::Eval> = Vec::new();
        let mut i: usize = 0;
        while i < n
            invariant
                cairo_claim.wf(),
                interaction_elements.wf(),
                i <= n,
                n == cairo_claim.ret@.len(),
                n == interaction_claim.ret@.len(),
                ret_components@.len() == i,
                forall|k: int|
                    0 <= k < i ==> {
                        let ev = #[trigger] ret_components@[k];
                        &&& ev.log_n_rows as nat == padded_log(
                            cairo_claim.ret@[k].n_rets as nat,
                        )
                        &&& ev.lookup_elements.z
                            == interaction_elements.memory_id_to_value_lookup.z
                        &&& ev.lookup_elements.alpha
                            == interaction_elements.memory_id_to_value_lookup.alpha
                        &&& ev.lookup_elements.alpha_powers@
                            == interaction_elements.memory_id_to_value_lookup.alpha_powers@
                        &&& ev.claimed_sum == interaction_claim.ret@[k].claimed_sum
                    },
            decreases n - i,
        {
            let component = ret_opcode::Eval::new(
                cairo_claim.ret[i],
                interaction_elements.memory_id_to_value_lookup.duplicate(),
                interaction_claim.ret[i],
            );
            ret_components.push(component);
            i = i + 1;
        }
        let memory_component = addr_to_f31::Eval::new(
            cairo_claim.memory_id_to_value,
            interaction_elements.memory_id_to_value_lookup.duplicate(),
            interaction_claim.memory_id_to_value,
        );
        CairoComponents { ret: ret_components, memory_id_to_value: memory_component }
    }
}

/// A shape error of the prover: the input cannot be turned into traces.
#[derive(Clone, Copy, PartialEq, Eq, Structural, Debug)]
pub enum CairoProvingError {
    /// An opcode has no recorded steps; every component needs at least
    /// one row.
    EmptyOpcode,
    /// The memory image is empty or larger than the memory component
    /// accepts.
    MemorySizeOutOfRange,
    /// More steps or public addresses than the usage counters can hold.
    TooManySteps,
    /// An address to be read lies outside the memory image.
    AddressOutOfRange {
        /// The offending address.
        addr: u32,
    },
}

/// What the claim must hold for a given input: every field is a pure
/// function of the input, so the claim is reproducible from public
/// data alone.
pub open spec fn claim_matches_input(c: CairoClaim, input: CairoInput) -> bool {
    &&& c.initial_state == input.initial_state
    &&& c.final_state == input.final_state
    &&& c.public_memory@.len() == input.public_mem_addresses@.len()
    &&& (forall|i: int|
        0 <= i < input.public_mem_addresses@.len() ==> (#[trigger] c.public_memory@[i])
            == public_entry(input.mem, input.public_mem_addresses@[i]))
    &&& c.ret@.len() == 1
    &&& c.ret@[0].n_rets as nat == pow2(padded_log(input.ret@.len() as nat))
    &&& c.memory_id_to_value.log_size as nat == padded_log(
        input.mem.address_to_value_index@.len() as nat,
    )
}

/// Claim computation is deterministic: two claims that match the same
/// input agree on all their content. The claim is mixed into the
/// transcript, so the verifier can reproduce it from public data.
pub proof fn lemma_claim_deterministic(c1: CairoClaim, c2: CairoClaim, input: CairoInput)
    requires
        claim_matches_input(c1, input),
        claim_matches_input(c2, input),
    ensures
        c1.public_memory@ == c2.public_memory@,
        c1.initial_state == c2.initial_state,
        c1.final_state == c2.final_state,
        c1.ret@ == c2.ret@,
        c1.memory_id_to_value == c2.memory_id_to_value,
{
    assert(c1.public_memory@ =~= c2.public_memory@);
    assert(c1.ret@[0] == c2.ret@[0]);
    assert(c1.ret@ =~= c2.ret@);
}

/// The addresses the public memory registers with the memory
/// component's usage counters, in order.
pub open spec fn public_lookups(addrs: Seq<u32>) -> Seq<int> {
    Seq::new(addrs.len(), |i: int| addrs[i] as int)
}

/// One public entry of the claim: the address and the value the memory
/// image stores there.
pub open spec fn public_entry(mem: Memory, addr: u32) -> (M31, QM31) {
    (
        M31 { value: addr },
        mem.f31_values@[mem.address_to_value_index@[addr as int] as int],
    )
}

/// The recorded steps padded to the next power of two by repeating the
/// first.
pub open spec fn padded_ret(s: Seq<VmState>) -> Seq<VmState> {
    s + Seq::new((pow2(padded_log(s.len())) - s.len()) as nat, |i: int| s[0])
}

/// The memory component's usage counters after the whole proving run:
/// zero, raised once per public address, then three times per padded
/// ret step.
pub open spec fn total_multiplicities(input: CairoInput) -> Seq<u32> {
    apply_lookups(
        apply_lookups(
            Seq::new(table_values(input.mem).len(), |i: int| 0u32),
            public_lookups(input.public_mem_addresses@),
        ),
        ret_lookups(padded_ret(input.ret@)),
    )
}

/// Whether the input passes every shape check of the prover.
pub open spec fn input_shape_ok(input: CairoInput) -> bool {
    &&& 1 <= input.ret@.len() <= 0x2000_0000
    &&& 1 <= input.mem.address_to_value_index@.len() <= MEMORY_ADDRESS_BOUND
    &&& input.public_mem_addresses@.len() <= 0x1000_0000
    &&& forall|i: int|
        0 <= i < input.public_mem_addresses@.len() ==> (
        #[trigger] input.public_mem_addresses@[i]) < input.mem.address_to_value_index@.len()
    &&& forall|i: int|
        0 <= i < padded_ret(input.ret@).len() ==> {
            let s = #[trigger] padded_ret(input.ret@)[i];
            &&& (s.pc as int) < table_values(input.mem).len()
            &&& (ret_opcode::fp_minus_one(s).value as int) < table_values(input.mem).len()
            &&& (ret_opcode::fp_minus_two(s).value as int) < table_values(input.mem).len()
        }
}

/// What the prover's first phase hands on: the committed main traces
/// and the lookup data each component collected for its interaction
/// trace.
pub struct CairoProverArtifacts {
    /// The ret component's main trace, by column.
    pub ret_trace: Vec<Vec<M31>>,
    /// The memory component's main trace, by column.
    pub memory_trace: Vec<Vec<M31>>,
    /// The ret component's lookup data.
    pub ret_interaction: ret_opcode::InteractionClaimGenerator,
    /// The memory component's lookup data.
    pub memory_interaction: addr_to_f31::InteractionClaimGenerator,
}

/// Register each public address once with the memory component's usage
/// counters.
fn register_public_memory(
    memory_trace_generator: &mut addr_to_f31::ClaimGenerator,
    addrs: &Vec<u32>,
    mem_len: usize,
)
    requires
        old(memory_trace_generator).wf(),
        mem_len <= old(memory_trace_generator).values@.len(),
        forall|i: int| 0 <= i < addrs@.len() ==> (#[trigger] addrs@[i]) < mem_len,
        forall|j: int|
            0 <= j < old(memory_trace_generator).multiplicities@.len() ==> (#[trigger] old(
                memory_trace_generator,
            ).multiplicities@[j]) + addrs@.len() <= u32::MAX,
    ensures
        final(memory_trace_generator).wf(),
        final(memory_trace_generator).values == old(memory_trace_generator).values,
        final(memory_trace_generator).multiplicities@ == apply_lookups(
            old(memory_trace_generator).multiplicities@,
            public_lookups(addrs@),
        ),
{
    let ghost old_mults = memory_trace_generator.multiplicities@;
    let n = addrs.len();
    let mut i: usize = 0;
    proof {
        assert(public_lookups(addrs@.subrange(0, 0)) =~= Seq::<int>::empty());
    }
    while i < n
        invariant
            i <= n,
            n == addrs@.len(),
            memory_trace_generator.wf(),
            memory_trace_generator.values == old(memory_trace_generator).values,
            memory_trace_generator.multiplicities@.len() == old_mults.len(),
            old_mults == old(memory_trace_generator).multiplicities@,
            mem_len <= memory_trace_generator.values@.len(),
            forall|k: int| 0 <= k < n ==> (#[trigger] addrs@[k]) < mem_len,
            forall|j: int|
                0 <= j < old_mults.len() ==> (#[trigger] old_mults[j]) + n <= u32::MAX,
            forall|j: int|
                0 <= j < old_mults.len()
                    ==> (#[trigger] memory_trace_generator.multiplicities@[j]) <= old_mults[j]
                    + i,
            memory_trace_generator.multiplicities@ == apply_lookups(
                old_mults,
                public_lookups(addrs@.subrange(0, i as int)),
            ),
        decreases n - i,
    {
        let ghost pl_i = public_lookups(addrs@.subrange(0, i as int));
        let ghost prev = memory_trace_generator.multiplicities@;
        let addr = addrs[i];
        let ghost a = addr as int;
        memory_trace_generator.add_inputs(addr as usize);
        proof {
            assert(seq![a].drop_last() =~= Seq::<int>::empty());
            assert(apply_lookups(prev, Seq::<int>::empty()) == prev);
            assert(apply_lookups(prev, seq![a]) == addr_to_f31::bump(prev, a));
            addr_to_f31::lemma_apply_lookups_concat(old_mults, pl_i, seq![a]);
            assert(public_lookups(addrs@.subrange(0, i + 1)) =~= pl_i + seq![a]);
        }
        i = i + 1;
    }
    proof {
        assert(addrs@.subrange(0, n as int) =~= addrs@);
    }
}

/// The public addresses and the values the memory image stores there.
fn extract_public_memory(mem: &Memory, addrs: &Vec<u32>) -> (r: Vec<(M31, QM31)>)
    requires
        mem.wf(),
        forall|i: int|
            0 <= i < addrs@.len() ==> (#[trigger] addrs@[i])
                < mem.address_to_value_index@.len(),
        mem.address_to_value_index@.len() <= MEMORY_ADDRESS_BOUND,
    ensures
        r@.len() == addrs@.len(),
        forall|i: int|
            0 <= i < addrs@.len() ==> (#[trigger] r@[i]) == public_entry(*mem, addrs@[i]),
        forall|i: int| 0 <= i < r@.len() ==> (#[trigger] r@[i]).0.wf() && r@[i].1.wf(),
    {
    let n = addrs.len();
    let mut r: Vec<(M31, QM31)> = Vec::new();
    let mut i: usize = 0;
    while i < n
        invariant
            mem.wf(),
            i <= n,
            n == addrs@.len(),
            mem.address_to_value_index@.len() <= MEMORY_ADDRESS_BOUND,
            forall|k: int|
                0 <= k < n ==> (#[trigger] addrs@[k]) < mem.address_to_value_index@.len(),
            r@.len() == i,
            forall|k: int|
                0 <= k < i ==> (#[trigger] r@[k]) == public_entry(*mem, addrs@[k]),
            forall|k: int| 0 <= k < i ==> (#[trigger] r@[k]).0.wf() && r@[k].1.wf(),
        decreases n - i,
    {
        let addr = addrs[i];
        let value = mem.get(addr);
        r.push((M31 { value: addr }, value.0));
        proof {
            assert(addr < MEMORY_ADDRESS_BOUND < crate::field::P);
        }
        i = i + 1;
    }
    r
}

/// The first padded ret step whose program counter or frame reads fall
/// outside the memory table, if any.
fn find_bad_ret_address(inputs: &Vec<VmState>, table_len: usize) -> (r: Option<u32>)
    requires
        forall|i: int| 0 <= i < inputs@.len() ==> (#[trigger] inputs@[i]).wf(),
    ensures
        r is None <==> (forall|i: int|
            0 <= i < inputs@.len() ==> {
                let s = #[trigger] inputs@[i];
                &&& (s.pc as int) < table_len
                &&& (ret_opcode::fp_minus_one(s).value as int) < table_len
                &&& (ret_opcode::fp_minus_two(s).value as int) < table_len
            }),
{
    let n = inputs.len();
    let mut i: usize = 0;
    while i < n
        invariant
            i <= n,
            n == inputs@.len(),
            forall|k: int| 0 <= k < n ==> (#[trigger] inputs@[k]).wf(),
            forall|k: int|
                0 <= k < i ==> {
                    let s = #[trigger] inputs@[k];
                    &&& (s.pc as int) < table_len
                    &&& (ret_opcode::fp_minus_one(s).value as int) < table_len
                    &&& (ret_opcode::fp_minus_two(s).value as int) < table_len
                },
        decreases n - i,
    {
        let s = inputs[i];
        let fp = M31 { value: s.fp };
        let fpm1 = fp.sub(M31 { value: 1 });
        let fpm2 = fp.sub(M31 { value: 2 });
        if !((s.pc as usize) < table_len) {
            return Some(s.pc);
        }
        if !((fpm1.value as usize) < table_len) {
            return Some(fpm1.value);
        }
        if !((fpm2.value as usize) < table_len) {
            return Some(fpm2.value);
        }
        i = i + 1;
    }
    None
}

/// The prover's first phase: check the input shape, build the memory
/// table, register the public addresses and every opcode's reads with
/// the usage counters, and write every component's main trace. The
/// claim this returns is a pure function of the input; the caller
/// feeds it to the transcript, draws the relations, and runs the
/// second phase.
pub fn prove_cairo_main(input: CairoInput) -> (r: Result<
    (CairoClaim, CairoProverArtifacts),
    CairoProvingError,
>)
    requires
        input.wf(),
    ensures
        r is Ok <==> input_shape_ok(input),
        r matches Ok(o) ==> {
            &&& o.0.wf()
            &&& claim_matches_input(o.0, input)
            &&& o.1.ret_interaction.wf()
            &&& o.1.ret_interaction.rows@.len() == padded_ret(input.ret@).len()
            &&& (forall|i: int|
                0 <= i < padded_ret(input.ret@).len() ==> (
                #[trigger] o.1.ret_interaction.rows@[i]) == spec_ret_row(
                    padded_ret(input.ret@)[i],
                    table_values(input.mem),
                ))
            &&& o.1.memory_interaction.wf()
            &&& o.1.memory_interaction.ids_and_values@.len() == table_values(input.mem).len()
            &&& (forall|i: int|
                0 <= i < table_values(input.mem).len() ==> (
                #[trigger] o.1.memory_interaction.ids_and_values@[i]) == (
                crate::field::m31_of(i),
                table_values(input.mem)[i],
            ))
            &&& (forall|i: int|
                0 <= i < table_values(input.mem).len() ==> (
                #[trigger] o.1.memory_interaction.multiplicities@[i]) == crate::field::m31_of(
                    total_multiplicities(input)[i] as int,
                ))
            &&& o.1.ret_trace@.len() == 5
            &&& o.1.memory_trace@.len() == 6
        },
{
    let ret_len = input.ret.len();
    let mem_len = input.mem.address_to_value_index.len();
    if ret_len == 0 {
        return Err(CairoProvingError::EmptyOpcode);
    }
    if ret_len > 0x2000_0000 {
        return Err(CairoProvingError::TooManySteps);
    }
    if mem_len == 0 || mem_len > crate::components::addr_to_f31::MEMORY_ADDRESS_BOUND {
        return Err(CairoProvingError::MemorySizeOutOfRange);
    }
    if input.public_mem_addresses.len() > 0x1000_0000 {
        return Err(CairoProvingError::TooManySteps);
    }
    let mut memory_trace_generator = addr_to_f31::ClaimGenerator::new(&input.mem);
    let mut pa: usize = 0;
    let n_public = input.public_mem_addresses.len();
    while pa < n_public
        invariant
            pa <= n_public,
            n_public == input.public_mem_addresses@.len(),
            mem_len == input.mem.address_to_value_index@.len(),
            forall|k: int|
                0 <= k < pa ==> (#[trigger] input.public_mem_addresses@[k]) < mem_len,
        decreases n_public - pa,
    {
        if !((input.public_mem_addresses[pa] as usize) < mem_len) {
            return Err(
                CairoProvingError::AddressOutOfRange { addr: input.public_mem_addresses[pa] },
            );
        }
        pa = pa + 1;
    }
    let ret_claim_generator = ret_opcode::ClaimGenerator::new(input.ret);
    proof {
        let lg = choose|lg: nat| (#[trigger] pow2(lg)) == ret_claim_generator.inputs@.len();
        vstd::arithmetic::power2::lemma2_to64();
        if lg > 0 {
            vstd::arithmetic::power2::lemma_pow2_unfold(lg);
        }
        crate::util::lemma_padded_log(input.ret@.len() as nat, lg);
        assert(ret_claim_generator.inputs@ =~= padded_ret(input.ret@));
    }
    match find_bad_ret_address(&ret_claim_generator.inputs, memory_trace_generator.values.len()) {
        Some(addr) => {
            return Err(CairoProvingError::AddressOutOfRange { addr });
        },
        None => {},
    }
    register_public_memory(
        &mut memory_trace_generator,
        &input.public_mem_addresses,
        mem_len,
    );
    let public_memory = extract_public_memory(&input.mem, &input.public_mem_addresses);
    proof {
        let zeros = Seq::new(table_values(input.mem).len(), |i: int| 0u32);
        let pl = public_lookups(input.public_mem_addresses@);
        assert(forall|k: int| 0 <= k < pl.len() ==> 0 <= #[trigger] pl[k] < zeros.len());
        assert forall|j: int|
            0 <= j < memory_trace_generator.multiplicities@.len() implies (
        #[trigger] memory_trace_generator.multiplicities@[j]) + 3
            * ret_claim_generator.inputs@.len() <= u32::MAX by {
            addr_to_f31::lemma_occurrences_bound(pl, j);
            addr_to_f31::lemma_multiplicity_accounting(zeros, pl, j);
        }
    }
    let (ret_claim, ret_trace, ret_interaction) = ret_claim_generator.write_trace(
        &mut memory_trace_generator,
    );
    let (memory_claim, memory_trace, memory_interaction) = memory_trace_generator.write_trace();
    proof {
        let a = memory_claim.log_size as nat;
        let b = padded_log(input.mem.address_to_value_index@.len() as nat);
        if a < b {
            vstd::arithmetic::power2::lemma_pow2_strictly_increases(a, b);
            assert(false);
        }
        if b < a {
            vstd::arithmetic::power2::lemma_pow2_strictly_increases(b, a);
            assert(false);
        }
    }
    let mut ret_claims: Vec<ret_opcode::Claim> = Vec::new();
    ret_claims.push(ret_claim);
    let claim = CairoClaim {
        public_memory,
        initial_state: input.initial_state,
        final_state: input.final_state,
        ret: ret_claims,
        memory_id_to_value: memory_claim,
    };
    let artifacts = CairoProverArtifacts {
        ret_trace,
        memory_trace,
        ret_interaction,
        memory_interaction,
    };
    Ok((claim, artifacts))
}

/// The prover's second phase, run only after the relations are drawn:
/// total every component's signed lookup fractions.
pub fn prove_cairo_interaction(
    artifacts: &CairoProverArtifacts,
    interaction_elements: &CairoInteractionElements,
) -> (r: CairoInteractionClaim)
    requires
        artifacts.ret_interaction.wf(),
        artifacts.memory_interaction.wf(),
        interaction_elements.wf(),
    ensures
        r.wf(),
        r.ret@.len() == 1,
        r.ret@[0].claimed_sum == frac_sum(
            ret_terms(
                interaction_elements.memory_id_to_value_lookup,
                artifacts.ret_interaction.rows@,
            ),
        ),
        r.memory_id_to_value.claimed_sum == frac_sum(
            mem_terms(
                interaction_elements.memory_id_to_value_lookup,
                artifacts.memory_interaction.ids_and_values@,
                artifacts.memory_interaction.multiplicities@,
            ),
        ),
{
    let ret_ic = artifacts.ret_interaction.write_interaction_trace(
        &interaction_elements.memory_id_to_value_lookup,
    );
    let memory_ic = artifacts.memory_interaction.write_interaction_trace(
        &interaction_elements.memory_id_to_value_lookup,
    );
    let mut ret_ics: Vec<ret_opcode::InteractionClaim> = Vec::new();
    ret_ics.push(ret_ic);
    CairoInteractionClaim { ret: ret_ics, memory_id_to_value: memory_ic }
}

/// The verifier's own decision: accept exactly when the global lookup
/// sum vanishes. The caller has already replayed the transcript to
/// draw the same relations, and runs the backend's commitment checks
/// beside this.
pub fn verify_cairo(
    proof: &CairoProof,
    interaction_elements: &CairoInteractionElements,
) -> (r: Result<(), CairoVerificationError>)
    requires
        proof.claim.wf(),
        proof.interaction_claim.wf(),
        interaction_elements.wf(),
    ensures
        r is Ok <==> lookup_total(
            proof.claim,
            *interaction_elements,
            proof.interaction_claim,
        ) == q_zero(),
        r matches Err(e) ==> e == CairoVerificationError::InvalidLogupSum,
{
    if !lookup_sum_valid(&proof.claim, interaction_elements, &proof.interaction_claim) {
        return Err(CairoVerificationError::InvalidLogupSum);
    }
    Ok(())
}

/// An error of the verifier: the proof is rejected with a typed reason.
#[derive(Clone, PartialEq, Eq, Debug)]
pub enum CairoVerificationError {
    /// The global sum of the lookup fractions is not zero.
    InvalidLogupSum,
    /// The generic backend rejected the commitment or low-degree
    /// argument; its own report is carried through unchanged.
    Stark {
        /// The backend's report.
        message: String,
    },
}

} // verus!
