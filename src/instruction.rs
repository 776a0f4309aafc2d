//! The instruction model and the opcode decoder.
//!
//! The opcode table is stated once, as an encoding: `opcode_of` gives the
//! unprefixed opcode of an instruction and `prefixed_opcode_of` the byte
//! that follows the `0xCB` escape. The decoders are proved to invert it.
use crate::commands::{
    AritLogiU16Cmd, AritLogiU8Cmd, BitCmd, CtrCmd, JmpCmd, LoadU16Cmd, LoadU8Cmd, RSCmd,
};
use crate::input::{
    cond_code, cond_from_code, lemma_opcode_fields, operand_code, operand_from_code, reg_code,
    register_from_code, BitInput, CompoundInputU8, DoubleInputU8, InputU16, JmpCmdCondition, JPInput, JmpCmdInput,
    LDIncDecInputU8, LDInputU16, LDInputU8,
};
use crate::register::{RegisterU16, RegisterU8};
use vstd::prelude::*;

verus! {

/// The escape byte that selects the prefixed opcode table.
pub const PREFIX_BYTE: u8 = 0xCB;

/// Every decodable operation, grouped by family.
#[derive(Clone, Copy, Debug, PartialEq, Eq, Structural)]
pub enum Instruction {
    Load8Bit(LoadU8Cmd),
    Load16Bit(LoadU16Cmd),
    ArithmeticLogical8Bit(AritLogiU8Cmd),
    ArithmeticLogical16Bit(AritLogiU16Cmd),
    RotateShift(RSCmd),
    SingleBit(BitCmd),
    Control(CtrCmd),
    Jump(JmpCmd),
}

/// Code of a register pair in the 16-bit arithmetic and load opcodes
/// (`BC`, `DE`, `HL`, `SP`); `AF` has none.
pub open spec fn pair_code(p: RegisterU16) -> int {
    match p {
        RegisterU16::BC => 0,
        RegisterU16::DE => 1,
        RegisterU16::HL => 2,
        RegisterU16::SP => 3,
        RegisterU16::AF => -1,
    }
}

/// Code of a register pair in the push and pop opcodes (`BC`, `DE`, `HL`,
/// `AF`); `SP` has none.
pub open spec fn stack_pair_code(p: RegisterU16) -> int {
    match p {
        RegisterU16::BC => 0,
        RegisterU16::DE => 1,
        RegisterU16::HL => 2,
        RegisterU16::AF => 3,
        RegisterU16::SP => -1,
    }
}

/// Opcode of an 8-bit arithmetic or logic operation in row `k` (ADD, ADC,
/// SUB, SBC, AND, XOR, OR, CP) on the given operand.
pub open spec fn alu_opcode(k: int, x: CompoundInputU8) -> int {
    match x {
        CompoundInputU8::Register(r) => 0x80 + 8 * k + reg_code(r),
        CompoundInputU8::Address => 0x86 + 8 * k,
        CompoundInputU8::Immediate => 0xC6 + 8 * k,
    }
}

pub open spec fn load8_opcode(c: LoadU8Cmd) -> Option<int> {
    match c {
        LoadU8Cmd::LD(x) => Some(
            match x {
                LDInputU8::RR(d, s) => 0x40 + 8 * reg_code(d) + reg_code(s),
                LDInputU8::RI(r) => 0x06 + 8 * reg_code(r),
                LDInputU8::RHL(r) => 0x46 + 8 * reg_code(r),
                LDInputU8::HLR(r) => 0x70 + reg_code(r),
                LDInputU8::HLI => 0x36,
                LDInputU8::ABC => 0x0A,
                LDInputU8::ADE => 0x1A,
                LDInputU8::AII => 0xFA,
                LDInputU8::BCA => 0x02,
                LDInputU8::DEA => 0x12,
                LDInputU8::IIA => 0xEA,
                LDInputU8::ReadIoN => 0xF0,
                LDInputU8::WriteIoN => 0xE0,
                LDInputU8::ReadIoC => 0xF2,
                LDInputU8::WriteIoC => 0xE2,
            },
        ),
        LoadU8Cmd::LDI(LDIncDecInputU8::HLA) => Some(0x22),
        LoadU8Cmd::LDI(LDIncDecInputU8::AHL) => Some(0x2A),
        LoadU8Cmd::LDD(LDIncDecInputU8::HLA) => Some(0x32),
        LoadU8Cmd::LDD(LDIncDecInputU8::AHL) => Some(0x3A),
    }
}

pub open spec fn load16_opcode(c: LoadU16Cmd) -> Option<int> {
    match c {
        LoadU16Cmd::LD(LDInputU16::RRNN(p)) => if p != RegisterU16::AF {
            Some(0x01 + 16 * pair_code(p))
        } else {
            None
        },
        LoadU16Cmd::LD(LDInputU16::SPHL) => Some(0xF9),
        LoadU16Cmd::LD(LDInputU16::NNSP) => Some(0x08),
        LoadU16Cmd::PUSH(InputU16(p)) => if p != RegisterU16::SP {
            Some(0xC5 + 16 * stack_pair_code(p))
        } else {
            None
        },
        LoadU16Cmd::POP(InputU16(p)) => if p != RegisterU16::SP {
            Some(0xC1 + 16 * stack_pair_code(p))
        } else {
            None
        },
    }
}

pub open spec fn alu8_opcode(c: AritLogiU8Cmd) -> int {
    match c {
        AritLogiU8Cmd::ADD(x) => alu_opcode(0, x),
        AritLogiU8Cmd::ADC(x) => alu_opcode(1, x),
        AritLogiU8Cmd::SUB(x) => alu_opcode(2, x),
        AritLogiU8Cmd::SBC(x) => alu_opcode(3, x),
        AritLogiU8Cmd::AND(x) => alu_opcode(4, x),
        AritLogiU8Cmd::XOR(x) => alu_opcode(5, x),
        AritLogiU8Cmd::OR(x) => alu_opcode(6, x),
        AritLogiU8Cmd::CP(x) => alu_opcode(7, x),
        AritLogiU8Cmd::INC(o) => 0x04 + 8 * operand_code(o),
        AritLogiU8Cmd::DEC(o) => 0x05 + 8 * operand_code(o),
        AritLogiU8Cmd::DAA => 0x27,
        AritLogiU8Cmd::CPL => 0x2F,
    }
}

pub open spec fn alu16_opcode(c: AritLogiU16Cmd) -> Option<int> {
    match c {
        AritLogiU16Cmd::ADDHL(InputU16(p)) => if p != RegisterU16::AF {
            Some(0x09 + 16 * pair_code(p))
        } else {
            None
        },
        AritLogiU16Cmd::INC(InputU16(p)) => if p != RegisterU16::AF {
            Some(0x03 + 16 * pair_code(p))
        } else {
            None
        },
        AritLogiU16Cmd::DEC(InputU16(p)) => if p != RegisterU16::AF {
            Some(0x0B + 16 * pair_code(p))
        } else {
            None
        },
        AritLogiU16Cmd::ADDSP => Some(0xE8),
        AritLogiU16Cmd::LDHLSP => Some(0xF8),
    }
}

pub open spec fn control_opcode(c: CtrCmd) -> int {
    match c {
        CtrCmd::NOP => 0x00,
        CtrCmd::STOP => 0x10,
        CtrCmd::HALT => 0x76,
        CtrCmd::DI => 0xF3,
        CtrCmd::EI => 0xFB,
        CtrCmd::SCF => 0x37,
        CtrCmd::CCF => 0x3F,
    }
}

pub open spec fn jump_opcode(c: JmpCmd) -> Option<int> {
    match c {
        JmpCmd::JP(JPInput::Direct) => Some(0xC3),
        JmpCmd::JP(JPInput::HL) => Some(0xE9),
        JmpCmd::JP(JPInput::Conditional(k)) => Some(0xC2 + 8 * cond_code(k)),
        JmpCmd::JR(JmpCmdInput::Direct) => Some(0x18),
        JmpCmd::JR(JmpCmdInput::Conditional(k)) => Some(0x20 + 8 * cond_code(k)),
        JmpCmd::CALL(JmpCmdInput::Direct) => Some(0xCD),
        JmpCmd::CALL(JmpCmdInput::Conditional(k)) => Some(0xC4 + 8 * cond_code(k)),
        JmpCmd::RET(JmpCmdInput::Direct) => Some(0xC9),
        JmpCmd::RET(JmpCmdInput::Conditional(k)) => Some(0xC0 + 8 * cond_code(k)),
        JmpCmd::RETI => Some(0xD9),
        JmpCmd::RST(v) => if v % 8 == 0 && v <= 0x38 {
            Some(0xC7 + v)
        } else {
            None
        },
    }
}

/// The unprefixed opcode of an instruction, if it has one.
pub open spec fn opcode_of(i: Instruction) -> Option<int> {
    match i {
        Instruction::Load8Bit(c) => load8_opcode(c),
        Instruction::Load16Bit(c) => load16_opcode(c),
        Instruction::ArithmeticLogical8Bit(c) => Some(alu8_opcode(c)),
        Instruction::ArithmeticLogical16Bit(c) => alu16_opcode(c),
        Instruction::RotateShift(c) => match c {
            RSCmd::RLCA => Some(0x07),
            RSCmd::RRCA => Some(0x0F),
            RSCmd::RLA => Some(0x17),
            RSCmd::RRA => Some(0x1F),
            _ => None,
        },
        Instruction::SingleBit(_) => None,
        Instruction::Control(c) => Some(control_opcode(c)),
        Instruction::Jump(c) => jump_opcode(c),
    }
}

/// The opcode that follows the escape byte for a prefixed instruction, if the
/// instruction has one.
pub open spec fn prefixed_opcode_of(i: Instruction) -> Option<int> {
    match i {
        Instruction::RotateShift(c) => match c {
            RSCmd::RLC(o) => Some(0x00 + operand_code(o)),
            RSCmd::RRC(o) => Some(0x08 + operand_code(o)),
            RSCmd::RL(o) => Some(0x10 + operand_code(o)),
            RSCmd::RR(o) => Some(0x18 + operand_code(o)),
            RSCmd::SLA(o) => Some(0x20 + operand_code(o)),
            RSCmd::SRA(o) => Some(0x28 + operand_code(o)),
            RSCmd::SWAP(o) => Some(0x30 + operand_code(o)),
            RSCmd::SRL(o) => Some(0x38 + operand_code(o)),
            _ => None,
        },
        Instruction::SingleBit(c) => match c {
            BitCmd::BIT(BitInput(b, o)) => if b < 8 {
                Some(0x40 + 8 * b + operand_code(o))
            } else {
                None
            },
            BitCmd::RES(BitInput(b, o)) => if b < 8 {
                Some(0x80 + 8 * b + operand_code(o))
            } else {
                None
            },
            BitCmd::SET(BitInput(b, o)) => if b < 8 {
                Some(0xC0 + 8 * b + operand_code(o))
            } else {
                None
            },
        },
        _ => None,
    }
}

/// The opcode of an instruction in the table that `prefixed` selects.
pub open spec fn encoding(i: Instruction, prefixed: bool) -> Option<int> {
    if prefixed {
        prefixed_opcode_of(i)
    } else {
        opcode_of(i)
    }
}

/// The bytes that name no instruction in the unprefixed table: the escape
/// byte itself and the eleven holes of the architecture's opcode map.
pub open spec fn is_unassigned(b: u8) -> bool {
    b == 0xCB || b == 0xD3 || b == 0xDB || b == 0xDD || b == 0xE3 || b == 0xE4 || b == 0xEB
        || b == 0xEC || b == 0xED || b == 0xF4 || b == 0xFC || b == 0xFD
}

/// Distinct registers, operands and conditions have distinct codes.
proof fn lemma_codes_unique()
    ensures
        forall|r1: RegisterU8, r2: RegisterU8|
            #[trigger] reg_code(r1) == #[trigger] reg_code(r2) ==> r1 == r2,
        forall|o1: DoubleInputU8, o2: DoubleInputU8|
            #[trigger] operand_code(o1) == #[trigger] operand_code(o2) ==> o1 == o2,
        forall|k1: JmpCmdCondition, k2: JmpCmdCondition|
            #[trigger] cond_code(k1) == #[trigger] cond_code(k2) ==> k1 == k2,
        forall|r: RegisterU8| 0 <= #[trigger] reg_code(r) < 8 && reg_code(r) != 6,
        forall|o: DoubleInputU8| 0 <= #[trigger] operand_code(o) < 8,
        forall|k: JmpCmdCondition| 0 <= #[trigger] cond_code(k) < 4,
{
}

/// A byte `8 * row + column` with a column below 8 has one row and one column.
proof fn lemma_row_column(r1: int, c1: int, r2: int, c2: int)
    requires
        0 <= c1 < 8,
        0 <= c2 < 8,
        8 * r1 + c1 == 8 * r2 + c2,
    ensures
        r1 == r2,
        c1 == c2,
{
}

/// No two instructions share a byte in the prefixed table.
pub proof fn lemma_prefixed_unique(i1: Instruction, i2: Instruction)
    requires
        prefixed_opcode_of(i1) is Some,
        prefixed_opcode_of(i1) == prefixed_opcode_of(i2),
    ensures
        i1 == i2,
{
    lemma_codes_unique();
    lemma_prefixed_row(i1);
    lemma_prefixed_row(i2);
    let (r1, o1) = prefixed_row(i1);
    let (r2, o2) = prefixed_row(i2);
    lemma_row_column(r1, operand_code(o1), r2, operand_code(o2));
}

/// Row (opcode divided by 8) and operand of a prefixed instruction.
spec fn prefixed_row(i: Instruction) -> (int, DoubleInputU8) {
    match i {
        Instruction::RotateShift(RSCmd::RLC(o)) => (0, o),
        Instruction::RotateShift(RSCmd::RRC(o)) => (1, o),
        Instruction::RotateShift(RSCmd::RL(o)) => (2, o),
        Instruction::RotateShift(RSCmd::RR(o)) => (3, o),
        Instruction::RotateShift(RSCmd::SLA(o)) => (4, o),
        Instruction::RotateShift(RSCmd::SRA(o)) => (5, o),
        Instruction::RotateShift(RSCmd::SWAP(o)) => (6, o),
        Instruction::RotateShift(RSCmd::SRL(o)) => (7, o),
        Instruction::SingleBit(BitCmd::BIT(BitInput(b, o))) => (8 + b, o),
        Instruction::SingleBit(BitCmd::RES(BitInput(b, o))) => (16 + b, o),
        Instruction::SingleBit(BitCmd::SET(BitInput(b, o))) => (24 + b, o),
        _ => (-1, DoubleInputU8::Address),
    }
}

/// The prefixed instruction in a row, on an operand.
spec fn prefixed_at(row: int, o: DoubleInputU8) -> Instruction {
    if row == 0 {
        Instruction::RotateShift(RSCmd::RLC(o))
    } else if row == 1 {
        Instruction::RotateShift(RSCmd::RRC(o))
    } else if row == 2 {
        Instruction::RotateShift(RSCmd::RL(o))
    } else if row == 3 {
        Instruction::RotateShift(RSCmd::RR(o))
    } else if row == 4 {
        Instruction::RotateShift(RSCmd::SLA(o))
    } else if row == 5 {
        Instruction::RotateShift(RSCmd::SRA(o))
    } else if row == 6 {
        Instruction::RotateShift(RSCmd::SWAP(o))
    } else if row == 7 {
        Instruction::RotateShift(RSCmd::SRL(o))
    } else if row < 16 {
        Instruction::SingleBit(BitCmd::BIT(BitInput((row - 8) as u8, o)))
    } else if row < 24 {
        Instruction::SingleBit(BitCmd::RES(BitInput((row - 16) as u8, o)))
    } else {
        Instruction::SingleBit(BitCmd::SET(BitInput((row - 24) as u8, o)))
    }
}

proof fn lemma_prefixed_row(i: Instruction)
    requires
        prefixed_opcode_of(i) is Some,
    ensures
        0 <= prefixed_row(i).0 < 32,
        prefixed_opcode_of(i) == Some(8 * prefixed_row(i).0 + operand_code(prefixed_row(i).1)),
        i == prefixed_at(prefixed_row(i).0, prefixed_row(i).1),
{
}

/// The register an operand code names (code 6 is not a register).
spec fn reg_at(code: int) -> RegisterU8 {
    if code == 0 {
        RegisterU8::B
    } else if code == 1 {
        RegisterU8::C
    } else if code == 2 {
        RegisterU8::D
    } else if code == 3 {
        RegisterU8::E
    } else if code == 4 {
        RegisterU8::H
    } else if code == 5 {
        RegisterU8::L
    } else {
        RegisterU8::A
    }
}

/// The register-or-`(HL)` operand an operand code names.
spec fn operand_at(code: int) -> DoubleInputU8 {
    if code == 6 {
        DoubleInputU8::Address
    } else {
        DoubleInputU8::Register(reg_at(code))
    }
}

/// The register-or-`(HL)` operand of an arithmetic opcode's low bits.
spec fn compound_at(code: int) -> CompoundInputU8 {
    if code == 6 {
        CompoundInputU8::Address
    } else {
        CompoundInputU8::Register(reg_at(code))
    }
}

/// The condition a condition code names.
spec fn cond_at(code: int) -> JmpCmdCondition {
    if code == 0 {
        JmpCmdCondition::NZ
    } else if code == 1 {
        JmpCmdCondition::Z
    } else if code == 2 {
        JmpCmdCondition::NC
    } else {
        JmpCmdCondition::C
    }
}

/// The register pair a 16-bit arithmetic or load code names.
spec fn pair_at(code: int) -> RegisterU16 {
    if code == 0 {
        RegisterU16::BC
    } else if code == 1 {
        RegisterU16::DE
    } else if code == 2 {
        RegisterU16::HL
    } else {
        RegisterU16::SP
    }
}

/// The register pair a push or pop code names.
spec fn stack_pair_at(code: int) -> RegisterU16 {
    if code == 3 {
        RegisterU16::AF
    } else {
        pair_at(code)
    }
}

/// The arithmetic or logic operation of row `k`.
spec fn alu_at(k: int, x: CompoundInputU8) -> AritLogiU8Cmd {
    if k == 0 {
        AritLogiU8Cmd::ADD(x)
    } else if k == 1 {
        AritLogiU8Cmd::ADC(x)
    } else if k == 2 {
        AritLogiU8Cmd::SUB(x)
    } else if k == 3 {
        AritLogiU8Cmd::SBC(x)
    } else if k == 4 {
        AritLogiU8Cmd::AND(x)
    } else if k == 5 {
        AritLogiU8Cmd::XOR(x)
    } else if k == 6 {
        AritLogiU8Cmd::OR(x)
    } else {
        AritLogiU8Cmd::CP(x)
    }
}

/// The instruction at unprefixed opcode `64 * x + 8 * y + z`, read by its
/// bit fields; an unassigned byte gives an arbitrary value.
spec fn unprefixed_at(x: int, y: int, z: int) -> Instruction {
    if x == 0 {
        if z == 0 {
            if y == 0 {
                Instruction::Control(CtrCmd::NOP)
            } else if y == 1 {
                Instruction::Load16Bit(LoadU16Cmd::LD(LDInputU16::NNSP))
            } else if y == 2 {
                Instruction::Control(CtrCmd::STOP)
            } else if y == 3 {
                Instruction::Jump(JmpCmd::JR(JmpCmdInput::Direct))
            } else {
                Instruction::Jump(JmpCmd::JR(JmpCmdInput::Conditional(cond_at(y - 4))))
            }
        } else if z == 1 {
            if y % 2 == 0 {
                Instruction::Load16Bit(LoadU16Cmd::LD(LDInputU16::RRNN(pair_at(y / 2))))
            } else {
                Instruction::ArithmeticLogical16Bit(AritLogiU16Cmd::ADDHL(InputU16(pair_at(y / 2))))
            }
        } else if z == 2 {
            if y == 0 {
                Instruction::Load8Bit(LoadU8Cmd::LD(LDInputU8::BCA))
            } else if y == 1 {
                Instruction::Load8Bit(LoadU8Cmd::LD(LDInputU8::ABC))
            } else if y == 2 {
                Instruction::Load8Bit(LoadU8Cmd::LD(LDInputU8::DEA))
            } else if y == 3 {
                Instruction::Load8Bit(LoadU8Cmd::LD(LDInputU8::ADE))
            } else if y == 4 {
                Instruction::Load8Bit(LoadU8Cmd::LDI(LDIncDecInputU8::HLA))
            } else if y == 5 {
                Instruction::Load8Bit(LoadU8Cmd::LDI(LDIncDecInputU8::AHL))
            } else if y == 6 {
                Instruction::Load8Bit(LoadU8Cmd::LDD(LDIncDecInputU8::HLA))
            } else {
                Instruction::Load8Bit(LoadU8Cmd::LDD(LDIncDecInputU8::AHL))
            }
        } else if z == 3 {
            if y % 2 == 0 {
                Instruction::ArithmeticLogical16Bit(AritLogiU16Cmd::INC(InputU16(pair_at(y / 2))))
            } else {
                Instruction::ArithmeticLogical16Bit(AritLogiU16Cmd::DEC(InputU16(pair_at(y / 2))))
            }
        } else if z == 4 {
            Instruction::ArithmeticLogical8Bit(AritLogiU8Cmd::INC(operand_at(y)))
        } else if z == 5 {
            Instruction::ArithmeticLogical8Bit(AritLogiU8Cmd::DEC(operand_at(y)))
        } else if z == 6 {
            if y == 6 {
                Instruction::Load8Bit(LoadU8Cmd::LD(LDInputU8::HLI))
            } else {
                Instruction::Load8Bit(LoadU8Cmd::LD(LDInputU8::RI(reg_at(y))))
            }
        } else {
            if y == 0 {
                Instruction::RotateShift(RSCmd::RLCA)
            } else if y == 1 {
                Instruction::RotateShift(RSCmd::RRCA)
            } else if y == 2 {
                Instruction::RotateShift(RSCmd::RLA)
            } else if y == 3 {
                Instruction::RotateShift(RSCmd::RRA)
            } else if y == 4 {
                Instruction::ArithmeticLogical8Bit(AritLogiU8Cmd::DAA)
            } else if y == 5 {
                Instruction::ArithmeticLogical8Bit(AritLogiU8Cmd::CPL)
            } else if y == 6 {
                Instruction::Control(CtrCmd::SCF)
            } else {
                Instruction::Control(CtrCmd::CCF)
            }
        }
    } else if x == 1 {
        if y == 6 && z == 6 {
            Instruction::Control(CtrCmd::HALT)
        } else if z == 6 {
            Instruction::Load8Bit(LoadU8Cmd::LD(LDInputU8::RHL(reg_at(y))))
        } else if y == 6 {
            Instruction::Load8Bit(LoadU8Cmd::LD(LDInputU8::HLR(reg_at(z))))
        } else {
            Instruction::Load8Bit(LoadU8Cmd::LD(LDInputU8::RR(reg_at(y), reg_at(z))))
        }
    } else if x == 2 {
        Instruction::ArithmeticLogical8Bit(alu_at(y, compound_at(z)))
    } else {
        unprefixed_high_at(y, z)
    }
}

/// The instruction at unprefixed opcode `0xC0 + 8 * y + z`.
spec fn unprefixed_high_at(y: int, z: int) -> Instruction {
    if z == 0 {
        if y < 4 {
            Instruction::Jump(JmpCmd::RET(JmpCmdInput::Conditional(cond_at(y))))
        } else if y == 4 {
            Instruction::Load8Bit(LoadU8Cmd::LD(LDInputU8::WriteIoN))
        } else if y == 5 {
            Instruction::ArithmeticLogical16Bit(AritLogiU16Cmd::ADDSP)
        } else if y == 6 {
            Instruction::Load8Bit(LoadU8Cmd::LD(LDInputU8::ReadIoN))
        } else {
            Instruction::ArithmeticLogical16Bit(AritLogiU16Cmd::LDHLSP)
        }
    } else if z == 1 {
        if y % 2 == 0 {
            Instruction::Load16Bit(LoadU16Cmd::POP(InputU16(stack_pair_at(y / 2))))
        } else if y == 1 {
            Instruction::Jump(JmpCmd::RET(JmpCmdInput::Direct))
        } else if y == 3 {
            Instruction::Jump(JmpCmd::RETI)
        } else if y == 5 {
            Instruction::Jump(JmpCmd::JP(JPInput::HL))
        } else {
            Instruction::Load16Bit(LoadU16Cmd::LD(LDInputU16::SPHL))
        }
    } else if z == 2 {
        if y < 4 {
            Instruction::Jump(JmpCmd::JP(JPInput::Conditional(cond_at(y))))
        } else if y == 4 {
            Instruction::Load8Bit(LoadU8Cmd::LD(LDInputU8::WriteIoC))
        } else if y == 5 {
            Instruction::Load8Bit(LoadU8Cmd::LD(LDInputU8::IIA))
        } else if y == 6 {
            Instruction::Load8Bit(LoadU8Cmd::LD(LDInputU8::ReadIoC))
        } else {
            Instruction::Load8Bit(LoadU8Cmd::LD(LDInputU8::AII))
        }
    } else if z == 3 {
        if y == 0 {
            Instruction::Jump(JmpCmd::JP(JPInput::Direct))
        } else if y == 6 {
            Instruction::Control(CtrCmd::DI)
        } else {
            Instruction::Control(CtrCmd::EI)
        }
    } else if z == 4 {
        Instruction::Jump(JmpCmd::CALL(JmpCmdInput::Conditional(cond_at(y))))
    } else if z == 5 {
        if y % 2 == 0 {
            Instruction::Load16Bit(LoadU16Cmd::PUSH(InputU16(stack_pair_at(y / 2))))
        } else {
            Instruction::Jump(JmpCmd::CALL(JmpCmdInput::Direct))
        }
    } else if z == 6 {
        Instruction::ArithmeticLogical8Bit(alu_at(y, CompoundInputU8::Immediate))
    } else {
        Instruction::Jump(JmpCmd::RST((8 * y) as u8))
    }
}

/// Bit fields of an unprefixed opcode: `op == 64 * x + 8 * y + z`.
spec fn fields_of(op: int) -> (int, int, int) {
    (op / 64, (op / 8) % 8, op % 8)
}

/// Every instruction with an unprefixed opcode is the one its bit fields
/// name.
proof fn lemma_unprefixed_at(i: Instruction)
    requires
        opcode_of(i) is Some,
    ensures
        ({
            let (x, y, z) = fields_of(opcode_of(i).unwrap());
            i == unprefixed_at(x, y, z)
        }),
{
    match i {
        Instruction::Load8Bit(c) => lemma_load8_at(c),
        Instruction::Load16Bit(c) => lemma_load16_at(c),
        Instruction::ArithmeticLogical8Bit(c) => lemma_alu8_at(c),
        Instruction::ArithmeticLogical16Bit(c) => lemma_alu16_at(c),
        Instruction::Jump(c) => lemma_jump_at(c),
        _ => {},
    }
}

proof fn lemma_load8_at(c: LoadU8Cmd)
    requires
        load8_opcode(c) is Some,
    ensures
        ({
            let (x, y, z) = fields_of(load8_opcode(c).unwrap());
            Instruction::Load8Bit(c) == unprefixed_at(x, y, z)
        }),
{
}

proof fn lemma_load16_at(c: LoadU16Cmd)
    requires
        load16_opcode(c) is Some,
    ensures
        ({
            let (x, y, z) = fields_of(load16_opcode(c).unwrap());
            Instruction::Load16Bit(c) == unprefixed_at(x, y, z)
        }),
{
}

proof fn lemma_alu8_at(c: AritLogiU8Cmd)
    ensures
        ({
            let (x, y, z) = fields_of(alu8_opcode(c));
            Instruction::ArithmeticLogical8Bit(c) == unprefixed_at(x, y, z)
        }),
{
    match c {
        AritLogiU8Cmd::ADD(x) => lemma_alu_row_at(0, x),
        AritLogiU8Cmd::ADC(x) => lemma_alu_row_at(1, x),
        AritLogiU8Cmd::SUB(x) => lemma_alu_row_at(2, x),
        AritLogiU8Cmd::SBC(x) => lemma_alu_row_at(3, x),
        AritLogiU8Cmd::AND(x) => lemma_alu_row_at(4, x),
        AritLogiU8Cmd::XOR(x) => lemma_alu_row_at(5, x),
        AritLogiU8Cmd::OR(x) => lemma_alu_row_at(6, x),
        AritLogiU8Cmd::CP(x) => lemma_alu_row_at(7, x),
        _ => {},
    }
}

/// Bit fields of the opcode of the arithmetic or logic operation in row `k`.
proof fn lemma_alu_row_at(k: int, x: CompoundInputU8)
    requires
        0 <= k < 8,
    ensures
        fields_of(alu_opcode(k, x)) == match x {
            CompoundInputU8::Register(r) => (2int, k, reg_code(r)),
            CompoundInputU8::Address => (2int, k, 6int),
            CompoundInputU8::Immediate => (3int, k, 6int),
        },
{
}

proof fn lemma_alu16_at(c: AritLogiU16Cmd)
    requires
        alu16_opcode(c) is Some,
    ensures
        ({
            let (x, y, z) = fields_of(alu16_opcode(c).unwrap());
            Instruction::ArithmeticLogical16Bit(c) == unprefixed_at(x, y, z)
        }),
{
}

proof fn lemma_jump_at(c: JmpCmd)
    requires
        jump_opcode(c) is Some,
    ensures
        ({
            let (x, y, z) = fields_of(jump_opcode(c).unwrap());
            Instruction::Jump(c) == unprefixed_at(x, y, z)
        }),
{
}

/// No two instructions share a byte in the unprefixed table.
pub proof fn lemma_unprefixed_unique(i1: Instruction, i2: Instruction)
    requires
        opcode_of(i1) is Some,
        opcode_of(i1) == opcode_of(i2),
    ensures
        i1 == i2,
{
    lemma_unprefixed_at(i1);
    lemma_unprefixed_at(i2);
}

/// No two instructions share an opcode in the same table, so the
/// instruction a byte decodes to is the only one that byte can mean.
pub proof fn lemma_encoding_unique(i1: Instruction, i2: Instruction, prefixed: bool)
    requires
        encoding(i1, prefixed) is Some,
        encoding(i1, prefixed) == encoding(i2, prefixed),
    ensures
        i1 == i2,
{
    if prefixed {
        lemma_prefixed_unique(i1, i2);
    } else {
        lemma_unprefixed_unique(i1, i2);
    }
}

/// An unassigned byte is the opcode of no instruction.
proof fn lemma_unassigned_has_no_opcode(i: Instruction)
    requires
        opcode_of(i) is Some,
    ensures
        !(0 <= opcode_of(i).unwrap() < 256 && is_unassigned(opcode_of(i).unwrap() as u8)),
{
    lemma_unprefixed_at(i);
}

/// Register pair for a code of the 16-bit arithmetic and load opcodes.
fn pair_from_code(code: u8) -> (p: RegisterU16)
    requires
        code < 4,
    ensures
        pair_code(p) == code,
        p != RegisterU16::AF,
{
    match code {
        0 => RegisterU16::BC,
        1 => RegisterU16::DE,
        2 => RegisterU16::HL,
        _ => RegisterU16::SP,
    }
}

/// Register pair for a code of the push and pop opcodes.
fn stack_pair_from_code(code: u8) -> (p: RegisterU16)
    requires
        code < 4,
    ensures
        stack_pair_code(p) == code,
        p != RegisterU16::SP,
{
    match code {
        0 => RegisterU16::BC,
        1 => RegisterU16::DE,
        2 => RegisterU16::HL,
        _ => RegisterU16::AF,
    }
}

/// The 8-bit arithmetic or logic operation of row `k` on operand `x`.
fn alu_from_code(k: u8, x: CompoundInputU8) -> (c: AritLogiU8Cmd)
    requires
        k < 8,
    ensures
        alu8_opcode(c) == alu_opcode(k as int, x),
{
    match k {
        0 => AritLogiU8Cmd::ADD(x),
        1 => AritLogiU8Cmd::ADC(x),
        2 => AritLogiU8Cmd::SUB(x),
        3 => AritLogiU8Cmd::SBC(x),
        4 => AritLogiU8Cmd::AND(x),
        5 => AritLogiU8Cmd::XOR(x),
        6 => AritLogiU8Cmd::OR(x),
        _ => AritLogiU8Cmd::CP(x),
    }
}

/// The operand that an operand code names, as a compound operand.
fn compound_from_code(code: u8) -> (x: CompoundInputU8)
    requires
        code < 8,
    ensures
        x != CompoundInputU8::Immediate,
        x == CompoundInputU8::Address <==> code == 6,
        forall|r| x == CompoundInputU8::Register(r) ==> reg_code(r) == code,
{
    if code == 6 {
        CompoundInputU8::Address
    } else {
        CompoundInputU8::Register(register_from_code(code))
    }
}

impl Instruction {
    /// Decodes one opcode byte; `prefixed` says that the byte followed the
    /// escape byte. Every prefixed byte names an instruction; an unprefixed
    /// byte names none exactly when it is unassigned.
    pub fn from_byte(byte: u8, prefixed: bool) -> (r: Option<Self>)
        ensures
            r is None <==> (!prefixed && is_unassigned(byte)),
            r matches Some(i) ==> encoding(i, prefixed) == Some(byte as int),
            forall|i: Instruction|
                #![trigger encoding(i, prefixed)]
                encoding(i, prefixed) == Some(byte as int) ==> r == Some(i),
    {
        let r = if prefixed {
            Self::from_byte_prefixed(byte)
        } else {
            Self::from_byte_not_prefixed(byte)
        };
        proof {
            assert forall|i: Instruction|
                #![trigger encoding(i, prefixed)]
                encoding(i, prefixed) == Some(byte as int) implies r == Some(i) by {
                if r is None {
                    lemma_unassigned_has_no_opcode(i);
                } else {
                    lemma_encoding_unique(r.unwrap(), i, prefixed);
                }
            }
        }
        r
    }

    /// Decodes the byte after the escape byte: rotates and shifts in
    /// `0x00..=0x3F`, then BIT, RES and SET, with the bit index in bits 5 to 3
    /// and the operand code in bits 2 to 0.
    pub fn from_byte_prefixed(byte: u8) -> (r: Option<Self>)
        ensures
            r matches Some(i) && prefixed_opcode_of(i) == Some(byte as int),
    {
        proof {
            lemma_opcode_fields(byte);
        }
        let family = byte >> 6;
        if family == 0 {
            let o = operand_from_code(byte & 7);
            let c = match (byte >> 3) & 7 {
                0 => RSCmd::RLC(o),
                1 => RSCmd::RRC(o),
                2 => RSCmd::RL(o),
                3 => RSCmd::RR(o),
                4 => RSCmd::SLA(o),
                5 => RSCmd::SRA(o),
                6 => RSCmd::SWAP(o),
                _ => RSCmd::SRL(o),
            };
            Some(Instruction::RotateShift(c))
        } else {
            let input = BitInput::from_opcode(byte);
            let c = if family == 1 {
                BitCmd::BIT(input)
            } else if family == 2 {
                BitCmd::RES(input)
            } else {
                BitCmd::SET(input)
            };
            Some(Instruction::SingleBit(c))
        }
    }

    /// Decodes an unprefixed opcode byte, or `None` for an unassigned one.
    pub fn from_byte_not_prefixed(byte: u8) -> (r: Option<Self>)
        ensures
            r is None <==> is_unassigned(byte),
            r matches Some(i) ==> opcode_of(i) == Some(byte as int),
    {
        proof {
            lemma_opcode_fields(byte);
        }
        let x = byte >> 6;
        let y = (byte >> 3) & 7;
        let z = byte & 7;
        if x == 0 {
            Self::decode_low_block(byte, y, z)
        } else if x == 1 {
            if z == 6 && y == 6 {
                Some(Instruction::Control(CtrCmd::HALT))
            } else if z == 6 {
                Some(Instruction::Load8Bit(LoadU8Cmd::LD(LDInputU8::RHL(register_from_code(y)))))
            } else if y == 6 {
                Some(Instruction::Load8Bit(LoadU8Cmd::LD(LDInputU8::HLR(register_from_code(z)))))
            } else {
                Some(
                    Instruction::Load8Bit(
                        LoadU8Cmd::LD(LDInputU8::RR(register_from_code(y), register_from_code(z))),
                    ),
                )
            }
        } else if x == 2 {
            Some(Instruction::ArithmeticLogical8Bit(alu_from_code(y, compound_from_code(z))))
        } else {
            Self::decode_high_block(byte, y, z)
        }
    }

    /// Opcodes `0x00..=0x3F`.
    fn decode_low_block(byte: u8, y: u8, z: u8) -> (r: Option<Self>)
        requires
            y < 8,
            z < 8,
            byte == 8 * y + z,
        ensures
            r matches Some(i) && opcode_of(i) == Some(byte as int),
    {
        let i = if z == 0 {
            if y == 0 {
                Instruction::Control(CtrCmd::NOP)
            } else if y == 1 {
                Instruction::Load16Bit(LoadU16Cmd::LD(LDInputU16::NNSP))
            } else if y == 2 {
                Instruction::Control(CtrCmd::STOP)
            } else if y == 3 {
                Instruction::Jump(JmpCmd::JR(JmpCmdInput::Direct))
            } else {
                Instruction::Jump(JmpCmd::JR(JmpCmdInput::Conditional(cond_from_code(y - 4))))
            }
        } else if z == 1 {
            let p = pair_from_code(y / 2);
            if y % 2 == 0 {
                Instruction::Load16Bit(LoadU16Cmd::LD(LDInputU16::RRNN(p)))
            } else {
                Instruction::ArithmeticLogical16Bit(AritLogiU16Cmd::ADDHL(InputU16(p)))
            }
        } else if z == 2 {
            match y {
                0 => Instruction::Load8Bit(LoadU8Cmd::LD(LDInputU8::BCA)),
                1 => Instruction::Load8Bit(LoadU8Cmd::LD(LDInputU8::ABC)),
                2 => Instruction::Load8Bit(LoadU8Cmd::LD(LDInputU8::DEA)),
                3 => Instruction::Load8Bit(LoadU8Cmd::LD(LDInputU8::ADE)),
                4 => Instruction::Load8Bit(LoadU8Cmd::LDI(LDIncDecInputU8::HLA)),
                5 => Instruction::Load8Bit(LoadU8Cmd::LDI(LDIncDecInputU8::AHL)),
                6 => Instruction::Load8Bit(LoadU8Cmd::LDD(LDIncDecInputU8::HLA)),
                _ => Instruction::Load8Bit(LoadU8Cmd::LDD(LDIncDecInputU8::AHL)),
            }
        } else if z == 3 {
            let p = InputU16(pair_from_code(y / 2));
            if y % 2 == 0 {
                Instruction::ArithmeticLogical16Bit(AritLogiU16Cmd::INC(p))
            } else {
                Instruction::ArithmeticLogical16Bit(AritLogiU16Cmd::DEC(p))
            }
        } else if z == 4 {
            Instruction::ArithmeticLogical8Bit(AritLogiU8Cmd::INC(operand_from_code(y)))
        } else if z == 5 {
            Instruction::ArithmeticLogical8Bit(AritLogiU8Cmd::DEC(operand_from_code(y)))
        } else if z == 6 {
            if y == 6 {
                Instruction::Load8Bit(LoadU8Cmd::LD(LDInputU8::HLI))
            } else {
                Instruction::Load8Bit(LoadU8Cmd::LD(LDInputU8::RI(register_from_code(y))))
            }
        } else {
            match y {
                0 => Instruction::RotateShift(RSCmd::RLCA),
                1 => Instruction::RotateShift(RSCmd::RRCA),
                2 => Instruction::RotateShift(RSCmd::RLA),
                3 => Instruction::RotateShift(RSCmd::RRA),
                4 => Instruction::ArithmeticLogical8Bit(AritLogiU8Cmd::DAA),
                5 => Instruction::ArithmeticLogical8Bit(AritLogiU8Cmd::CPL),
                6 => Instruction::Control(CtrCmd::SCF),
                _ => Instruction::Control(CtrCmd::CCF),
            }
        };
        Some(i)
    }

    /// Opcodes `0xC0..=0xFF`.
    fn decode_high_block(byte: u8, y: u8, z: u8) -> (r: Option<Self>)
        requires
            y < 8,
            z < 8,
            byte == 0xC0 + 8 * y + z,
        ensures
            r is None <==> is_unassigned(byte),
            r matches Some(i) ==> opcode_of(i) == Some(byte as int),
    {
        if z == 0 {
            Some(
                if y < 4 {
                    Instruction::Jump(JmpCmd::RET(JmpCmdInput::Conditional(cond_from_code(y))))
                } else if y == 4 {
                    Instruction::Load8Bit(LoadU8Cmd::LD(LDInputU8::WriteIoN))
                } else if y == 5 {
                    Instruction::ArithmeticLogical16Bit(AritLogiU16Cmd::ADDSP)
                } else if y == 6 {
                    Instruction::Load8Bit(LoadU8Cmd::LD(LDInputU8::ReadIoN))
                } else {
                    Instruction::ArithmeticLogical16Bit(AritLogiU16Cmd::LDHLSP)
                },
            )
        } else if z == 1 {
            Some(
                if y % 2 == 0 {
                    Instruction::Load16Bit(LoadU16Cmd::POP(InputU16(stack_pair_from_code(y / 2))))
                } else if y == 1 {
                    Instruction::Jump(JmpCmd::RET(JmpCmdInput::Direct))
                } else if y == 3 {
                    Instruction::Jump(JmpCmd::RETI)
                } else if y == 5 {
                    Instruction::Jump(JmpCmd::JP(JPInput::HL))
                } else {
                    Instruction::Load16Bit(LoadU16Cmd::LD(LDInputU16::SPHL))
                },
            )
        } else if z == 2 {
            Some(
                if y < 4 {
                    Instruction::Jump(JmpCmd::JP(JPInput::Conditional(cond_from_code(y))))
                } else if y == 4 {
                    Instruction::Load8Bit(LoadU8Cmd::LD(LDInputU8::WriteIoC))
                } else if y == 5 {
                    Instruction::Load8Bit(LoadU8Cmd::LD(LDInputU8::IIA))
                } else if y == 6 {
                    Instruction::Load8Bit(LoadU8Cmd::LD(LDInputU8::ReadIoC))
                } else {
                    Instruction::Load8Bit(LoadU8Cmd::LD(LDInputU8::AII))
                },
            )
        } else if z == 3 {
            if y == 0 {
                Some(Instruction::Jump(JmpCmd::JP(JPInput::Direct)))
            } else if y == 6 {
                Some(Instruction::Control(CtrCmd::DI))
            } else if y == 7 {
                Some(Instruction::Control(CtrCmd::EI))
            } else {
                None
            }
        } else if z == 4 {
            if y < 4 {
                Some(Instruction::Jump(JmpCmd::CALL(JmpCmdInput::Conditional(cond_from_code(y)))))
            } else {
                None
            }
        } else if z == 5 {
            if y % 2 == 0 {
                Some(Instruction::Load16Bit(LoadU16Cmd::PUSH(InputU16(stack_pair_from_code(y / 2)))))
            } else if y == 1 {
                Some(Instruction::Jump(JmpCmd::CALL(JmpCmdInput::Direct)))
            } else {
                None
            }
        } else if z == 6 {
            Some(Instruction::ArithmeticLogical8Bit(alu_from_code(y, CompoundInputU8::Immediate)))
        } else {
            Some(Instruction::Jump(JmpCmd::RST(8 * y)))
        }
    }
}

} // verus!
