use chippers_core::instructions::{decode, encode, Instruction, QuirkMode};

#[test]
fn decodes_fixed_opcodes() {
    assert_eq!(
        decode(0x00E0, QuirkMode::Legacy).unwrap(),
        Instruction::ClearScreen
    );
    assert_eq!(
        decode(0x00EE, QuirkMode::Modern).unwrap(),
        Instruction::Return
    );
}

#[test]
fn decodes_address_opcodes() {
    assert_eq!(
        decode(0x0123, QuirkMode::Legacy).unwrap(),
        Instruction::MachineRoutine { address: 0x123 }
    );
    assert_eq!(
        decode(0x1ABC, QuirkMode::Legacy).unwrap(),
        Instruction::Jump { address: 0xABC }
    );
    assert_eq!(
        decode(0x2345, QuirkMode::Legacy).unwrap(),
        Instruction::Call { address: 0x345 }
    );
    assert_eq!(
        decode(0xA678, QuirkMode::Legacy).unwrap(),
        Instruction::SetIndexWithAddress { address: 0x678 }
    );
}

#[test]
fn decodes_jump_offset_by_quirk_mode() {
    assert_eq!(
        decode(0xB123, QuirkMode::Legacy).unwrap(),
        Instruction::JumpOffset {
            base_address: 0x123,
            register: None
        }
    );
    assert_eq!(
        decode(0xB123, QuirkMode::Modern).unwrap(),
        Instruction::JumpOffset {
            base_address: 0x123,
            register: Some(1)
        }
    );
}

#[test]
fn decodes_byte_opcodes() {
    assert_eq!(
        decode(0x3A42, QuirkMode::Legacy).unwrap(),
        Instruction::SkipEqualByte {
            register: 0xA,
            byte: 0x42
        }
    );
    assert_eq!(
        decode(0x4B99, QuirkMode::Legacy).unwrap(),
        Instruction::SkipNotEqualByte {
            register: 0xB,
            byte: 0x99
        }
    );
    assert_eq!(
        decode(0x6C07, QuirkMode::Legacy).unwrap(),
        Instruction::SetWithByte {
            register: 0xC,
            byte: 0x07
        }
    );
    assert_eq!(
        decode(0x70FF, QuirkMode::Legacy).unwrap(),
        Instruction::AddWithByte {
            register: 0x0,
            byte: 0xFF
        }
    );
    assert_eq!(
        decode(0xC30F, QuirkMode::Legacy).unwrap(),
        Instruction::RandomAnd {
            register: 0x3,
            byte: 0x0F
        }
    );
}

#[test]
fn decodes_register_pair_opcodes() {
    assert_eq!(
        decode(0x5120, QuirkMode::Legacy).unwrap(),
        Instruction::SkipEqualVariable {
            register_x: 1,
            register_y: 2
        }
    );
    assert_eq!(
        decode(0x9340, QuirkMode::Legacy).unwrap(),
        Instruction::SkipNotEqualVariable {
            register_x: 3,
            register_y: 4
        }
    );
    assert_eq!(
        decode(0x8120, QuirkMode::Legacy).unwrap(),
        Instruction::SetWithVariable {
            register_x: 1,
            register_y: 2
        }
    );
    assert_eq!(
        decode(0x8121, QuirkMode::Legacy).unwrap(),
        Instruction::Or {
            register_x: 1,
            register_y: 2
        }
    );
    assert_eq!(
        decode(0x8122, QuirkMode::Legacy).unwrap(),
        Instruction::And {
            register_x: 1,
            register_y: 2
        }
    );
    assert_eq!(
        decode(0x8123, QuirkMode::Legacy).unwrap(),
        Instruction::Xor {
            register_x: 1,
            register_y: 2
        }
    );
    assert_eq!(
        decode(0x8124, QuirkMode::Legacy).unwrap(),
        Instruction::AddWithVariable {
            register_x: 1,
            register_y: 2
        }
    );
    assert_eq!(
        decode(0x8125, QuirkMode::Legacy).unwrap(),
        Instruction::SubWithVariable {
            register_x: 1,
            register_y: 2
        }
    );
    assert_eq!(
        decode(0x8127, QuirkMode::Legacy).unwrap(),
        Instruction::SubWithVariableNot {
            register_x: 1,
            register_y: 2
        }
    );
}

#[test]
fn decodes_shifts_by_quirk_mode() {
    assert_eq!(
        decode(0x8126, QuirkMode::Legacy).unwrap(),
        Instruction::ShiftRight {
            register_x: 1,
            register_y: Some(2)
        }
    );
    assert_eq!(
        decode(0x8126, QuirkMode::Modern).unwrap(),
        Instruction::ShiftRight {
            register_x: 1,
            register_y: None
        }
    );
    assert_eq!(
        decode(0x812E, QuirkMode::Legacy).unwrap(),
        Instruction::ShiftLeft {
            register_x: 1,
            register_y: Some(2)
        }
    );
    assert_eq!(
        decode(0x812E, QuirkMode::Modern).unwrap(),
        Instruction::ShiftLeft {
            register_x: 1,
            register_y: None
        }
    );
}

#[test]
fn decodes_draw_and_key_opcodes() {
    assert_eq!(
        decode(0xD125, QuirkMode::Legacy).unwrap(),
        Instruction::Draw {
            register_x: 1,
            register_y: 2,
            n: 5
        }
    );
    assert_eq!(
        decode(0xE19E, QuirkMode::Legacy).unwrap(),
        Instruction::SkipKey { register: 1 }
    );
    assert_eq!(
        decode(0xE2A1, QuirkMode::Legacy).unwrap(),
        Instruction::SkipNotKey { register: 2 }
    );
}

#[test]
fn decodes_f_group_opcodes() {
    assert_eq!(
        decode(0xF107, QuirkMode::Legacy).unwrap(),
        Instruction::SetVariableWithDelayTimer { register: 1 }
    );
    assert_eq!(
        decode(0xF20A, QuirkMode::Legacy).unwrap(),
        Instruction::WaitForKey { register: 2 }
    );
    assert_eq!(
        decode(0xF315, QuirkMode::Legacy).unwrap(),
        Instruction::SetDelayTimer { register: 3 }
    );
    assert_eq!(
        decode(0xF418, QuirkMode::Legacy).unwrap(),
        Instruction::SetSoundTimer { register: 4 }
    );
    assert_eq!(
        decode(0xF51E, QuirkMode::Legacy).unwrap(),
        Instruction::AddIndexWithVariable { register: 5 }
    );
    assert_eq!(
        decode(0xF629, QuirkMode::Legacy).unwrap(),
        Instruction::SetIndexWithSpriteAddress { register: 6 }
    );
    assert_eq!(
        decode(0xF733, QuirkMode::Legacy).unwrap(),
        Instruction::StoreDecimalConversion { register: 7 }
    );
    assert_eq!(
        decode(0xF855, QuirkMode::Legacy).unwrap(),
        Instruction::StoreRegisters { up_to_register: 8 }
    );
    assert_eq!(
        decode(0xF965, QuirkMode::Legacy).unwrap(),
        Instruction::LoadIntoRegisters { up_to_register: 9 }
    );
}

#[test]
fn rejects_unknown_opcodes() {
    assert!(decode(0x5121, QuirkMode::Legacy).is_err());
    assert!(decode(0x8128, QuirkMode::Legacy).is_err());
    assert!(decode(0x812F, QuirkMode::Modern).is_err());
    assert!(decode(0x9341, QuirkMode::Legacy).is_err());
    assert!(decode(0xE19F, QuirkMode::Legacy).is_err());
    assert!(decode(0xE000, QuirkMode::Legacy).is_err());
    assert!(decode(0xF100, QuirkMode::Legacy).is_err());
    assert!(decode(0xF156, QuirkMode::Legacy).is_err());
    assert!(decode(0xFFFF, QuirkMode::Legacy).is_err());
}

fn sample_instructions(mode: QuirkMode) -> Vec<Instruction> {
    let legacy = matches!(mode, QuirkMode::Legacy);
    let shift_y = if legacy { Some(7) } else { None };
    let jump_register = if legacy { None } else { Some(0x3) };
    vec![
        Instruction::Call { address: 0x234 },
        Instruction::Return,
        Instruction::Jump { address: 0xFFF },
        Instruction::JumpOffset {
            base_address: 0x345,
            register: jump_register,
        },
        Instruction::SkipEqualByte {
            register: 1,
            byte: 0xAB,
        },
        Instruction::SkipNotEqualByte {
            register: 2,
            byte: 0x00,
        },
        Instruction::SkipEqualVariable {
            register_x: 3,
            register_y: 4,
        },
        Instruction::SkipNotEqualVariable {
            register_x: 5,
            register_y: 6,
        },
        Instruction::SkipKey { register: 7 },
        Instruction::SkipNotKey { register: 8 },
        Instruction::SetWithByte {
            register: 9,
            byte: 0x42,
        },
        Instruction::SetWithVariable {
            register_x: 10,
            register_y: 11,
        },
        Instruction::SetIndexWithAddress { address: 0x001 },
        Instruction::SetIndexWithSpriteAddress { register: 12 },
        Instruction::AddWithByte {
            register: 13,
            byte: 0xFF,
        },
        Instruction::AddWithVariable {
            register_x: 14,
            register_y: 15,
        },
        Instruction::AddIndexWithVariable { register: 0 },
        Instruction::SubWithVariable {
            register_x: 1,
            register_y: 2,
        },
        Instruction::SubWithVariableNot {
            register_x: 3,
            register_y: 4,
        },
        Instruction::ShiftRight {
            register_x: 5,
            register_y: shift_y,
        },
        Instruction::ShiftLeft {
            register_x: 6,
            register_y: shift_y,
        },
        Instruction::Or {
            register_x: 7,
            register_y: 8,
        },
        Instruction::And {
            register_x: 9,
            register_y: 10,
        },
        Instruction::Xor {
            register_x: 11,
            register_y: 12,
        },
        Instruction::ClearScreen,
        Instruction::Draw {
            register_x: 13,
            register_y: 14,
            n: 15,
        },
        Instruction::SetVariableWithDelayTimer { register: 1 },
        Instruction::SetDelayTimer { register: 2 },
        Instruction::SetSoundTimer { register: 3 },
        Instruction::StoreRegisters { up_to_register: 4 },
        Instruction::LoadIntoRegisters { up_to_register: 5 },
        Instruction::StoreDecimalConversion { register: 6 },
        Instruction::WaitForKey { register: 7 },
        Instruction::RandomAnd {
            register: 8,
            byte: 0x77,
        },
        Instruction::MachineRoutine { address: 0x123 },
    ]
}

#[test]
fn encode_decode_round_trip_legacy() {
    for instruction in sample_instructions(QuirkMode::Legacy) {
        let opcode = encode(instruction);
        assert_eq!(decode(opcode, QuirkMode::Legacy).unwrap(), instruction);
    }
}

#[test]
fn encode_decode_round_trip_modern() {
    for instruction in sample_instructions(QuirkMode::Modern) {
        let opcode = encode(instruction);
        assert_eq!(decode(opcode, QuirkMode::Modern).unwrap(), instruction);
    }
}

#[test]
fn encode_decode_round_trip_every_register_operand() {
    for x in 0..16usize {
        for y in 0..16usize {
            let pair = Instruction::SubWithVariable {
                register_x: x,
                register_y: y,
            };
            assert_eq!(decode(encode(pair), QuirkMode::Legacy).unwrap(), pair);
            let shift = Instruction::ShiftLeft {
                register_x: x,
                register_y: Some(y),
            };
            assert_eq!(decode(encode(shift), QuirkMode::Legacy).unwrap(), shift);
        }
    }
}

#[test]
fn decode_then_encode_restores_canonical_opcodes() {
    // Every opcode whose operand nibbles are all significant is restored
    // exactly by the encoder.
    for &opcode in &[
        0x00E0u16, 0x00EE, 0x0123, 0x1ABC, 0x2345, 0x3A42, 0x4B99, 0x5120, 0x6C07, 0x70FF, 0x8120,
        0x8121, 0x8122, 0x8123, 0x8124, 0x8125, 0x8126, 0x8127, 0x812E, 0x9340, 0xA678, 0xB123,
        0xC30F, 0xD125, 0xE19E, 0xE2A1, 0xF107, 0xF20A, 0xF315, 0xF418, 0xF51E, 0xF629, 0xF733,
        0xF855, 0xF965,
    ] {
        let instruction = decode(opcode, QuirkMode::Legacy).unwrap();
        assert_eq!(encode(instruction), opcode);
    }
}
