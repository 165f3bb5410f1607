use cairo_air::cairo_air::{
    prove_cairo_interaction, prove_cairo_main, verify_cairo, CairoInput,
    CairoInteractionElements, CairoProof, CairoProvingError, CairoVerificationError,
};
use cairo_air::channel::Transcript;
use cairo_air::extension::QM31;
use cairo_air::field::M31;
use cairo_air::mem::{MemConfig, MemEntry, MemoryBuilder};
use cairo_air::state::VmState;

fn sample_felt(k: u32) -> QM31 {
    QM31::from_parts(M31::new(k), M31::new(k + 1), M31::new(k + 2), M31::new(k + 3))
}

fn sample_elements() -> CairoInteractionElements {
    CairoInteractionElements::draw(
        sample_felt(101),
        sample_felt(207),
        sample_felt(311),
        sample_felt(419),
    )
}

/// One ret step at `fp = 3`, `ap = 2`, `pc = 1`: the instruction word
/// sits at `pc = 1`, and the two frame values sit at `fp - 1 = 2` and
/// `fp - 2 = 1`.
fn fixture_input(fpm1_value: u32) -> CairoInput {
    let entries = vec![
        MemEntry { addr: 0, val: [5, 0, 0, 0] },
        MemEntry { addr: 1, val: [171, 0, 0, 0] },
        MemEntry { addr: 2, val: [fpm1_value, 0, 0, 0] },
        MemEntry { addr: 3, val: [9, 0, 0, 0] },
    ];
    let mem = MemoryBuilder::from_iter(MemConfig::default(), &entries).build();
    CairoInput {
        ret: vec![VmState { pc: 1, ap: 2, fp: 3 }],
        initial_state: VmState { pc: 1, ap: 2, fp: 3 },
        final_state: VmState { pc: 171, ap: 2, fp: 5 },
        mem,
        public_mem_addresses: vec![],
    }
}

#[test]
fn test_prove_verify_roundtrip() {
    let (claim, artifacts) = prove_cairo_main(fixture_input(7)).unwrap();
    let mut channel = Transcript::new();
    claim.mix_into(&mut channel);
    let elements = sample_elements();
    let interaction_claim = prove_cairo_interaction(&artifacts, &elements);
    interaction_claim.mix_into(&mut channel);
    let proof = CairoProof { claim, interaction_claim };
    assert!(verify_cairo(&proof, &elements).is_ok());
}

#[test]
fn test_tampered_claimed_sum_rejected() {
    let (claim, artifacts) = prove_cairo_main(fixture_input(7)).unwrap();
    let elements = sample_elements();
    let mut interaction_claim = prove_cairo_interaction(&artifacts, &elements);
    let bump = QM31::from_m31(M31::new(1));
    interaction_claim.memory_id_to_value.claimed_sum =
        interaction_claim.memory_id_to_value.claimed_sum.add(bump);
    let proof = CairoProof { claim, interaction_claim };
    assert_eq!(
        verify_cairo(&proof, &elements),
        Err(CairoVerificationError::InvalidLogupSum)
    );
}

#[test]
fn test_tampered_memory_rejected() {
    // The opcode's reads were recorded against one memory image, the
    // supply side against another whose value at fp - 1 differs by one:
    // the fractions no longer cancel.
    let (claim, honest) = prove_cairo_main(fixture_input(7)).unwrap();
    let (_claim2, tampered) = prove_cairo_main(fixture_input(8)).unwrap();
    let elements = sample_elements();
    let mixed = cairo_air::cairo_air::CairoProverArtifacts {
        ret_trace: honest.ret_trace,
        memory_trace: tampered.memory_trace,
        ret_interaction: honest.ret_interaction,
        memory_interaction: tampered.memory_interaction,
    };
    let interaction_claim = prove_cairo_interaction(&mixed, &elements);
    let proof = CairoProof { claim, interaction_claim };
    assert_eq!(
        verify_cairo(&proof, &elements),
        Err(CairoVerificationError::InvalidLogupSum)
    );
}

#[test]
fn test_claim_computation_deterministic() {
    let (claim1, _artifacts1) = prove_cairo_main(fixture_input(7)).unwrap();
    let (claim2, _artifacts2) = prove_cairo_main(fixture_input(7)).unwrap();
    assert_eq!(claim1, claim2);

    let mut channel1 = Transcript::new();
    let mut channel2 = Transcript::new();
    claim1.mix_into(&mut channel1);
    claim2.mix_into(&mut channel2);
    assert_eq!(channel1.data, channel2.data);
}

#[test]
fn test_public_memory_unbalances_sum_without_extra_supply() {
    // Declaring an address public consumes its cell once more; the
    // prover raises its counter accordingly, and the sum still cancels.
    let mut input = fixture_input(7);
    input.public_mem_addresses = vec![0, 3];
    let (claim, artifacts) = prove_cairo_main(input).unwrap();
    assert_eq!(claim.public_memory.len(), 2);
    assert_eq!(claim.public_memory[0].0.value, 0);
    assert_eq!(claim.public_memory[1].1.a.a.value, 9);
    let elements = sample_elements();
    let interaction_claim = prove_cairo_interaction(&artifacts, &elements);
    let proof = CairoProof { claim, interaction_claim };
    assert!(verify_cairo(&proof, &elements).is_ok());
}

#[test]
fn test_empty_opcode_rejected() {
    let mut input = fixture_input(7);
    input.ret = vec![];
    assert!(matches!(
        prove_cairo_main(input),
        Err(CairoProvingError::EmptyOpcode)
    ));
}

#[test]
fn test_out_of_range_read_rejected() {
    let mut input = fixture_input(7);
    // fp - 1 = 999 lies outside the four-entry table.
    input.ret = vec![VmState { pc: 1, ap: 2, fp: 1000 }];
    assert!(matches!(
        prove_cairo_main(input),
        Err(CairoProvingError::AddressOutOfRange { .. })
    ));
}

#[test]
fn test_log_sizes_shape() {
    let (claim, _artifacts) = prove_cairo_main(fixture_input(7)).unwrap();
    let trees = claim.log_sizes();
    assert_eq!(trees.len(), 3);
    // One ret component (5, 12, 1 columns) then the memory component
    // (6, 4, 1 columns), all at their own log heights.
    assert_eq!(trees[0].len(), 5 + 6);
    assert_eq!(trees[1].len(), 12 + 4);
    assert_eq!(trees[2].len(), 1 + 1);
    // One padded ret row and a four-row memory table.
    assert_eq!(trees[0][0], 0);
    assert_eq!(trees[0][5], 2);
}
