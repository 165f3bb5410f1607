use cairo_air::field::M31;
use cairo_air::gadgets::{decode_word, divmod, encode_word, select_trit, AddMulFlags};
use cairo_air::state::{opcode_kind, OpcodeKind};

#[test]
fn test_flag_round_trip() {
    // Every valid flag tuple encodes below 48 and decodes back.
    for is_mul in 0..2u32 {
        for reg0 in 0..2u32 {
            for reg1 in 0..3u32 {
                for reg2 in 0..2u32 {
                    for appp in 0..2u32 {
                        let flags = AddMulFlags { is_mul, reg0, reg1, reg2, appp };
                        let word = encode_word(flags);
                        assert!(word.value < 48);
                        assert_eq!(decode_word(word), Ok(flags));
                    }
                }
            }
        }
    }
}

#[test]
fn test_flag_encoding_values() {
    let flags = AddMulFlags { is_mul: 1, reg0: 0, reg1: 2, reg2: 1, appp: 0 };
    assert_eq!(encode_word(flags).value, 1 + 8 + 12);
    let all_on = AddMulFlags { is_mul: 1, reg0: 1, reg1: 2, reg2: 1, appp: 1 };
    assert_eq!(encode_word(all_on).value, 47);
}

#[test]
fn test_malformed_word_rejected() {
    // Words at or above the product of the bases keep a nonzero
    // remainder and must be rejected.
    assert!(decode_word(M31 { value: 48 }).is_err());
    assert!(decode_word(M31 { value: 1000 }).is_err());
    assert!(decode_word(M31 { value: 47 }).is_ok());
}

#[test]
fn test_select_trit() {
    let a = M31::new(123);
    let b = M31::new(456789);
    let c = M31::new(987654321);
    assert_eq!(select_trit(M31::new(0), a, b, c), a);
    assert_eq!(select_trit(M31::new(1), a, b, c), b);
    assert_eq!(select_trit(M31::new(2), a, b, c), c);
}

#[test]
fn test_divmod() {
    let (q, r) = divmod(M31::new(47), 3);
    assert_eq!(q.value, 15);
    assert_eq!(r.value, 2);
}

#[test]
fn test_opcode_dispatch_total_over_legal_range() {
    for op in 0..=171u32 {
        assert!(opcode_kind(M31::new(op)).is_some());
    }
    assert_eq!(opcode_kind(M31::new(0)), Some(OpcodeKind::AddAp));
    assert_eq!(opcode_kind(M31::new(17)), Some(OpcodeKind::Assert));
    assert_eq!(opcode_kind(M31::new(90)), Some(OpcodeKind::Call));
    assert_eq!(opcode_kind(M31::new(111)), Some(OpcodeKind::JmpAbs));
    assert_eq!(opcode_kind(M31::new(145)), Some(OpcodeKind::JmpRel));
    assert_eq!(opcode_kind(M31::new(165)), Some(OpcodeKind::Jnz));
    assert_eq!(opcode_kind(M31::new(171)), Some(OpcodeKind::Ret));
    assert_eq!(opcode_kind(M31::new(172)), None);
}
