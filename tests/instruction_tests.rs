use gb_cpu::{
    AritLogiU16Cmd, AritLogiU8Cmd, BitCmd, BitInput, CompoundInputU8, CtrCmd, DoubleInputU8,
    InputU16, Instruction, JPInput, JmpCmd, JmpCmdCondition, JmpCmdInput, LDIncDecInputU8,
    LDInputU16, LDInputU8, LoadU16Cmd, LoadU8Cmd, RSCmd, RegisterU16, RegisterU8,
};

fn n_to_reg_u8(n: u8) -> Option<RegisterU8> {
    match n {
        0 => Some(RegisterU8::B),
        1 => Some(RegisterU8::C),
        2 => Some(RegisterU8::D),
        3 => Some(RegisterU8::E),
        4 => Some(RegisterU8::H),
        5 => Some(RegisterU8::L),
        6 => None,
        7 => Some(RegisterU8::A),
        _ => unreachable!("n_to_reg() is only ever passed 0..7 aka a u3"),
    }
}

fn build_bit_instruction(family: u8, bit: u8, reg_code: u8) -> Instruction {
    let operand = match n_to_reg_u8(reg_code) {
        Some(reg) => DoubleInputU8::Register(reg),
        None => DoubleInputU8::Address,
    };
    let input = BitInput(bit, operand);
    Instruction::SingleBit(match family {
        1 => BitCmd::BIT(input),
        2 => BitCmd::RES(input),
        _ => BitCmd::SET(input),
    })
}

#[test]
fn instruction_from_byte_prefixed_single_bit() {
    // This enumerates the raw table; the decoder follows the bit-field encoding.
    let mut expected = Vec::new();
    for (family, first) in [(1u8, 0x40u8), (2, 0x80), (3, 0xC0)] {
        for bit in 0u8..8 {
            for reg_code in 0u8..8 {
                let code = first + bit * 8 + reg_code;
                expected.push((code, build_bit_instruction(family, bit, reg_code)));
            }
        }
    }
    assert_eq!(expected.len(), 192);

    for (opcode, instruction) in expected {
        let built_instruction = Instruction::from_byte(opcode, true)
            .expect("Instruction struct should build and identify single bit prefixed opcodes properly");

        assert_eq!(
            format!("{:?}", built_instruction),
            format!("{:?}", instruction),
            "left containing built_instruction with {opcode:#X} failed against right containing correct instruction"
        );
    }
}

#[test]
fn bit_7_h_decodes_to_index_and_register() {
    let decoded = Instruction::from_byte(0x7C, true);
    assert_eq!(
        decoded,
        Some(Instruction::SingleBit(BitCmd::BIT(BitInput(7, DoubleInputU8::Register(RegisterU8::H)))))
    );
    let input = BitInput::from_opcode(0x7C);
    assert_eq!(input, BitInput(7, DoubleInputU8::Register(RegisterU8::H)));
}

#[test]
fn bit_input_from_opcode_reads_fields() {
    assert_eq!(BitInput::from_opcode(0x46), BitInput(0, DoubleInputU8::Address));
    assert_eq!(BitInput::from_opcode(0xFF), BitInput(7, DoubleInputU8::Register(RegisterU8::A)));
    assert_eq!(BitInput::from_opcode(0x99), BitInput(3, DoubleInputU8::Register(RegisterU8::C)));
}

#[test]
fn every_prefixed_byte_decodes() {
    for b in 0u16..=255 {
        assert!(Instruction::from_byte(b as u8, true).is_some(), "prefixed {b:#X}");
    }
}

#[test]
fn prefixed_rotates_and_shifts() {
    let hl = DoubleInputU8::Address;
    let b = DoubleInputU8::Register(RegisterU8::B);
    let a = DoubleInputU8::Register(RegisterU8::A);
    assert_eq!(Instruction::from_byte(0x00, true), Some(Instruction::RotateShift(RSCmd::RLC(b))));
    assert_eq!(Instruction::from_byte(0x0E, true), Some(Instruction::RotateShift(RSCmd::RRC(hl))));
    assert_eq!(Instruction::from_byte(0x17, true), Some(Instruction::RotateShift(RSCmd::RL(a))));
    assert_eq!(Instruction::from_byte(0x18, true), Some(Instruction::RotateShift(RSCmd::RR(b))));
    assert_eq!(Instruction::from_byte(0x27, true), Some(Instruction::RotateShift(RSCmd::SLA(a))));
    assert_eq!(Instruction::from_byte(0x2E, true), Some(Instruction::RotateShift(RSCmd::SRA(hl))));
    assert_eq!(Instruction::from_byte(0x37, true), Some(Instruction::RotateShift(RSCmd::SWAP(a))));
    assert_eq!(Instruction::from_byte(0x38, true), Some(Instruction::RotateShift(RSCmd::SRL(b))));
}

#[test]
fn unprefixed_table_is_total_with_explicit_failures() {
    let unassigned = [0xCBu8, 0xD3, 0xDB, 0xDD, 0xE3, 0xE4, 0xEB, 0xEC, 0xED, 0xF4, 0xFC, 0xFD];
    let mut decoded = 0;
    for b in 0u16..=255 {
        let b = b as u8;
        let r = Instruction::from_byte(b, false);
        assert_eq!(r.is_none(), unassigned.contains(&b), "unprefixed {b:#X}");
        if r.is_some() {
            decoded += 1;
        }
        assert_eq!(r, Instruction::from_byte_not_prefixed(b));
    }
    assert_eq!(decoded, 244);
}

#[test]
fn unprefixed_samples() {
    let (a, b, c, h, l) = (RegisterU8::A, RegisterU8::B, RegisterU8::C, RegisterU8::H, RegisterU8::L);
    let cases: Vec<(u8, Instruction)> = vec![
        (0x00, Instruction::Control(CtrCmd::NOP)),
        (0x76, Instruction::Control(CtrCmd::HALT)),
        (0x7F, Instruction::Load8Bit(LoadU8Cmd::LD(LDInputU8::RR(a, a)))),
        (0x41, Instruction::Load8Bit(LoadU8Cmd::LD(LDInputU8::RR(b, c)))),
        (0x6C, Instruction::Load8Bit(LoadU8Cmd::LD(LDInputU8::RR(l, h)))),
        (0x3E, Instruction::Load8Bit(LoadU8Cmd::LD(LDInputU8::RI(a)))),
        (0x7E, Instruction::Load8Bit(LoadU8Cmd::LD(LDInputU8::RHL(a)))),
        (0x70, Instruction::Load8Bit(LoadU8Cmd::LD(LDInputU8::HLR(b)))),
        (0x36, Instruction::Load8Bit(LoadU8Cmd::LD(LDInputU8::HLI))),
        (0x0A, Instruction::Load8Bit(LoadU8Cmd::LD(LDInputU8::ABC))),
        (0xFA, Instruction::Load8Bit(LoadU8Cmd::LD(LDInputU8::AII))),
        (0xEA, Instruction::Load8Bit(LoadU8Cmd::LD(LDInputU8::IIA))),
        (0xE0, Instruction::Load8Bit(LoadU8Cmd::LD(LDInputU8::WriteIoN))),
        (0xF2, Instruction::Load8Bit(LoadU8Cmd::LD(LDInputU8::ReadIoC))),
        (0x22, Instruction::Load8Bit(LoadU8Cmd::LDI(LDIncDecInputU8::HLA))),
        (0x3A, Instruction::Load8Bit(LoadU8Cmd::LDD(LDIncDecInputU8::AHL))),
        (0x31, Instruction::Load16Bit(LoadU16Cmd::LD(LDInputU16::RRNN(RegisterU16::SP)))),
        (0x08, Instruction::Load16Bit(LoadU16Cmd::LD(LDInputU16::NNSP))),
        (0xF9, Instruction::Load16Bit(LoadU16Cmd::LD(LDInputU16::SPHL))),
        (0xF5, Instruction::Load16Bit(LoadU16Cmd::PUSH(InputU16(RegisterU16::AF)))),
        (0xC1, Instruction::Load16Bit(LoadU16Cmd::POP(InputU16(RegisterU16::BC)))),
        (0x87, Instruction::ArithmeticLogical8Bit(AritLogiU8Cmd::ADD(CompoundInputU8::Register(a)))),
        (0x8E, Instruction::ArithmeticLogical8Bit(AritLogiU8Cmd::ADC(CompoundInputU8::Address))),
        (0xD6, Instruction::ArithmeticLogical8Bit(AritLogiU8Cmd::SUB(CompoundInputU8::Immediate))),
        (0xBD, Instruction::ArithmeticLogical8Bit(AritLogiU8Cmd::CP(CompoundInputU8::Register(l)))),
        (0x34, Instruction::ArithmeticLogical8Bit(AritLogiU8Cmd::INC(DoubleInputU8::Address))),
        (0x05, Instruction::ArithmeticLogical8Bit(AritLogiU8Cmd::DEC(DoubleInputU8::Register(b)))),
        (0x27, Instruction::ArithmeticLogical8Bit(AritLogiU8Cmd::DAA)),
        (0x2F, Instruction::ArithmeticLogical8Bit(AritLogiU8Cmd::CPL)),
        (0x29, Instruction::ArithmeticLogical16Bit(AritLogiU16Cmd::ADDHL(InputU16(RegisterU16::HL)))),
        (0x1B, Instruction::ArithmeticLogical16Bit(AritLogiU16Cmd::DEC(InputU16(RegisterU16::DE)))),
        (0xE8, Instruction::ArithmeticLogical16Bit(AritLogiU16Cmd::ADDSP)),
        (0x07, Instruction::RotateShift(RSCmd::RLCA)),
        (0x1F, Instruction::RotateShift(RSCmd::RRA)),
        (0x37, Instruction::Control(CtrCmd::SCF)),
        (0xFB, Instruction::Control(CtrCmd::EI)),
        (0xC3, Instruction::Jump(JmpCmd::JP(JPInput::Direct))),
        (0xE9, Instruction::Jump(JmpCmd::JP(JPInput::HL))),
        (0xCA, Instruction::Jump(JmpCmd::JP(JPInput::Conditional(JmpCmdCondition::Z)))),
        (0xDA, Instruction::Jump(JmpCmd::JP(JPInput::Conditional(JmpCmdCondition::C)))),
        (0x18, Instruction::Jump(JmpCmd::JR(JmpCmdInput::Direct))),
        (0x20, Instruction::Jump(JmpCmd::JR(JmpCmdInput::Conditional(JmpCmdCondition::NZ)))),
        (0xCD, Instruction::Jump(JmpCmd::CALL(JmpCmdInput::Direct))),
        (0xD8, Instruction::Jump(JmpCmd::RET(JmpCmdInput::Conditional(JmpCmdCondition::C)))),
        (0xD9, Instruction::Jump(JmpCmd::RETI)),
        (0xFF, Instruction::Jump(JmpCmd::RST(0x38))),
        (0xC7, Instruction::Jump(JmpCmd::RST(0x00))),
    ];
    for (b, i) in cases {
        assert_eq!(Instruction::from_byte(b, false), Some(i), "unprefixed {b:#X}");
    }
}

#[test]
fn distinct_bytes_decode_to_distinct_instructions() {
    let mut seen: Vec<Instruction> = Vec::new();
    for prefixed in [false, true] {
        for b in 0u16..=255 {
            if let Some(i) = Instruction::from_byte(b as u8, prefixed) {
                assert!(!seen.contains(&i), "{b:#X} prefixed={prefixed} repeats {i:?}");
                seen.push(i);
            }
        }
    }
    assert_eq!(seen.len(), 244 + 256);
}
