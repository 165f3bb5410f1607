use cairo_air::components::add_mul_opcode;
use cairo_air::components::addr_to_f31;
use cairo_air::components::ret_opcode;
use cairo_air::extension::QM31;
use cairo_air::field::M31;
use cairo_air::mem::{MemConfig, MemEntry, MemoryBuilder};
use cairo_air::relations::Relation;
use cairo_air::state::VmState;

fn sample_felt(k: u32) -> QM31 {
    QM31::from_parts(M31::new(k), M31::new(k + 1), M31::new(k + 2), M31::new(k + 3))
}

#[test]
fn test_memory_trace_prover() {
    let entries: Vec<MemEntry> = (0..10u32)
        .map(|i| MemEntry { addr: i, val: [i; 4] })
        .collect();
    let memory = MemoryBuilder::from_iter(MemConfig::default(), &entries).build();
    let mut claim_generator = addr_to_f31::ClaimGenerator::new(&memory);
    let address_usages = [0u32, 1, 1, 2, 2, 2];
    let expected_f31_mult: [u32; 16] = [1, 2, 3, 0, 0, 0, 0, 0, 0, 0, 0, 0, 0, 0, 0, 0];

    for addr in address_usages {
        let value_index = memory.address_to_value_index[addr as usize];
        claim_generator.add_inputs(value_index);
    }

    assert_eq!(claim_generator.multiplicities, expected_f31_mult);
}

#[test]
fn test_ret_trace_registers_reads() {
    let entries: Vec<MemEntry> = (0..4u32)
        .map(|i| MemEntry { addr: i, val: [i + 100, 0, 0, 0] })
        .collect();
    let memory = MemoryBuilder::from_iter(MemConfig::default(), &entries).build();
    let mut memory_generator = addr_to_f31::ClaimGenerator::new(&memory);
    let ret_generator = ret_opcode::ClaimGenerator::new(vec![VmState { pc: 1, ap: 2, fp: 3 }]);

    let (claim, trace, interaction) = ret_generator.write_trace(&mut memory_generator);

    assert_eq!(claim.n_rets, 1);
    // Columns: pc, ap, fp, [fp-1], [fp-2].
    assert_eq!(trace[0][0].value, 1);
    assert_eq!(trace[1][0].value, 2);
    assert_eq!(trace[2][0].value, 3);
    assert_eq!(trace[3][0].value, 102);
    assert_eq!(trace[4][0].value, 101);
    // One read each at pc = 1, fp - 1 = 2, fp - 2 = 1.
    assert_eq!(memory_generator.multiplicities, vec![0, 2, 1, 0]);
    assert_eq!(interaction.rows.len(), 1);
    assert_eq!(interaction.rows[0].inst.value, ret_opcode::RET_INSTRUCTION);
}

#[test]
fn test_add_mul_trace_add_instruction() {
    // Instruction word 2: an add with the destination based on `fp`.
    let entries = vec![
        MemEntry { addr: 0, val: [2, 0, 0, 0] },
        MemEntry { addr: 1, val: [3, 0, 0, 0] },
        MemEntry { addr: 2, val: [6, 0, 0, 0] },
    ];
    let memory = MemoryBuilder::from_iter(MemConfig::default(), &entries).build();
    let mut memory_generator = addr_to_f31::ClaimGenerator::new(&memory);
    let generator = add_mul_opcode::ClaimGenerator::new(vec![VmState { pc: 0, ap: 1, fp: 2 }]);

    let (claim, interaction) = generator.write_trace(&mut memory_generator).unwrap();

    assert_eq!(claim.n_calls, 1);
    let row = &interaction.rows[0];
    // ap, fp, pc, is_mul, reg0, reg1, reg2, appp.
    assert_eq!(row[0].value, 1);
    assert_eq!(row[1].value, 2);
    assert_eq!(row[2].value, 0);
    assert_eq!(row[3].value, 0);
    assert_eq!(row[4].value, 1);
    assert_eq!(row[5].value, 0);
    assert_eq!(row[6].value, 0);
    assert_eq!(row[7].value, 0);
    // dst = fp = 2, lhs = rhs = ap = 1.
    assert_eq!(row[11].value, 2);
    assert_eq!(row[12].value, 1);
    assert_eq!(row[13].value, 1);
    assert_eq!(row[14].value, 6);
    assert_eq!(row[18].value, 3);
    assert_eq!(row[22].value, 3);
    // Reads: pc = 0 once, address 1 twice, address 2 once.
    assert_eq!(memory_generator.multiplicities, vec![1, 2, 1, 0]);
}

#[test]
fn test_add_mul_rejects_malformed_word() {
    let entries = vec![
        MemEntry { addr: 0, val: [48, 0, 0, 0] },
        MemEntry { addr: 1, val: [3, 0, 0, 0] },
    ];
    let memory = MemoryBuilder::from_iter(MemConfig::default(), &entries).build();
    let mut memory_generator = addr_to_f31::ClaimGenerator::new(&memory);
    let generator = add_mul_opcode::ClaimGenerator::new(vec![VmState { pc: 0, ap: 1, fp: 1 }]);

    let result = generator.write_trace(&mut memory_generator);
    assert!(matches!(
        result,
        Err(add_mul_opcode::TraceGenError::Decode { word: 48 })
    ));
}

#[test]
fn test_add_mul_rejects_operand_mismatch() {
    let entries = vec![
        MemEntry { addr: 0, val: [2, 0, 0, 0] },
        MemEntry { addr: 1, val: [3, 0, 0, 0] },
        MemEntry { addr: 2, val: [7, 0, 0, 0] },
    ];
    let memory = MemoryBuilder::from_iter(MemConfig::default(), &entries).build();
    let mut memory_generator = addr_to_f31::ClaimGenerator::new(&memory);
    let generator = add_mul_opcode::ClaimGenerator::new(vec![VmState { pc: 0, ap: 1, fp: 2 }]);

    let result = generator.write_trace(&mut memory_generator);
    assert!(matches!(
        result,
        Err(add_mul_opcode::TraceGenError::OperandMismatch { dst_addr: 2 })
    ));
}

#[test]
fn test_add_mul_constraints_vanish_on_generated_row() {
    let entries = vec![
        MemEntry { addr: 0, val: [2, 0, 0, 0] },
        MemEntry { addr: 1, val: [3, 0, 0, 0] },
        MemEntry { addr: 2, val: [6, 0, 0, 0] },
    ];
    let memory = MemoryBuilder::from_iter(MemConfig::default(), &entries).build();
    let mut memory_generator = addr_to_f31::ClaimGenerator::new(&memory);
    let generator = add_mul_opcode::ClaimGenerator::new(vec![VmState { pc: 0, ap: 1, fp: 2 }]);
    let (claim, interaction) = generator.write_trace(&mut memory_generator).unwrap();

    let memory_relation = Relation::draw(sample_felt(1), sample_felt(5), 5);
    let state_relation = Relation::draw(sample_felt(9), sample_felt(13), 3);
    let eval = add_mul_opcode::Eval::new(
        claim,
        memory_relation,
        state_relation,
        add_mul_opcode::InteractionClaim { log_size: 0, claimed_sum: QM31::zero() },
    );
    let evaluation = eval.evaluate(&interaction.rows[0]);
    for residual in &evaluation.constraints {
        assert_eq!(residual.value, 0);
    }
    assert_eq!(evaluation.op_constraint, QM31::zero());
    assert_eq!(evaluation.fractions.len(), 6);
}

#[test]
fn test_relation_combine() {
    let z = sample_felt(21);
    let alpha = sample_felt(33);
    let relation = Relation::draw(z, alpha, 5);
    let a = M31::new(17);
    let b = M31::new(29);
    let combined = relation.combine(&vec![a, b]);
    let expected = QM31::from_m31(a).add(alpha.mul(QM31::from_m31(b))).sub(z);
    assert_eq!(combined, expected);
}
