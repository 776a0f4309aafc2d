//! Operand payloads of the instruction model: which register, memory cell or
//! immediate an instruction reads or writes, and the conditions of the
//! conditional jumps.
use crate::register::{RegisterU16, RegisterU8};
use vstd::prelude::*;

verus! {

/// An 8-bit operand that may be a register, the byte after the opcode, or the
/// byte that `HL` points to.
#[derive(Clone, Copy, Debug, PartialEq, Eq, Structural)]
pub enum CompoundInputU8 {
    /// The given 8-bit register.
    Register(RegisterU8),
    /// The byte immediately following the opcode in memory.
    Immediate,
    /// The byte at the address held in `HL`.
    Address,
}

/// An 8-bit operand that may be a register or the byte that `HL` points to.
#[derive(Clone, Copy, Debug, PartialEq, Eq, Structural)]
pub enum DoubleInputU8 {
    /// The given 8-bit register.
    Register(RegisterU8),
    /// The byte at the address held in `HL`.
    Address,
}

/// A plain 8-bit register operand.
#[derive(Clone, Copy, Debug, PartialEq, Eq, Structural)]
pub struct InputU8(pub RegisterU8);

/// A plain 16-bit register operand.
#[derive(Clone, Copy, Debug, PartialEq, Eq, Structural)]
pub struct InputU16(pub RegisterU16);

/// Operand of the absolute jump.
#[derive(Clone, Copy, Debug, PartialEq, Eq, Structural)]
pub enum JPInput {
    /// Jump to the little-endian address in the two bytes after the opcode.
    Direct,
    /// Jump to the address held in `HL`.
    HL,
    /// Jump to the address after the opcode when the condition holds.
    Conditional(JmpCmdCondition),
}

/// Operand of the relative jump, the call and the return: always, or only
/// when a condition holds.
#[derive(Clone, Copy, Debug, PartialEq, Eq, Structural)]
pub enum JmpCmdInput {
    Direct,
    Conditional(JmpCmdCondition),
}

/// The four jump conditions.
#[derive(Clone, Copy, Debug, PartialEq, Eq, Structural)]
pub enum JmpCmdCondition {
    /// The zero flag is clear.
    NZ,
    /// The zero flag is set.
    Z,
    /// The carry flag is clear.
    NC,
    /// The carry flag is set.
    C,
}

/// Operands of the 8-bit load. `(x)` below is the byte at address `x`, `n`
/// the byte after the opcode and `nn` the little-endian word after it.
#[derive(Clone, Copy, Debug, PartialEq, Eq, Structural)]
pub enum LDInputU8 {
    /// r1 = r2
    RR(RegisterU8, RegisterU8),
    /// r = n
    RI(RegisterU8),
    /// r = (HL)
    RHL(RegisterU8),
    /// (HL) = r
    HLR(RegisterU8),
    /// (HL) = n
    HLI,
    /// A = (BC)
    ABC,
    /// A = (DE)
    ADE,
    /// A = (nn)
    AII,
    /// (BC) = A
    BCA,
    /// (DE) = A
    DEA,
    /// (nn) = A
    IIA,
    /// A = (0xFF00 + n)
    ReadIoN,
    /// (0xFF00 + n) = A
    WriteIoN,
    /// A = (0xFF00 + C)
    ReadIoC,
    /// (0xFF00 + C) = A
    WriteIoC,
}

/// Operands of the loads through `HL` that then step `HL` up or down.
#[derive(Clone, Copy, Debug, PartialEq, Eq, Structural)]
pub enum LDIncDecInputU8 {
    /// (HL) = A
    HLA,
    /// A = (HL)
    AHL,
}

/// Operands of the 16-bit load.
#[derive(Clone, Copy, Debug, PartialEq, Eq, Structural)]
pub enum LDInputU16 {
    /// rr = nn, the word after the opcode
    RRNN(RegisterU16),
    /// SP = HL
    SPHL,
    /// (nn) = SP, low byte first
    NNSP,
}

/// Operand of the single-bit operations: the bit index (0 to 7) and the byte
/// that holds the bit.
#[derive(Clone, Copy, Debug, PartialEq, Eq, Structural)]
pub struct BitInput(pub u8, pub DoubleInputU8);

/// Operand code of the 8-bit register field of an opcode; code 6 is the byte
/// that `HL` points to.
pub open spec fn reg_code(r: RegisterU8) -> int {
    match r {
        RegisterU8::B => 0,
        RegisterU8::C => 1,
        RegisterU8::D => 2,
        RegisterU8::E => 3,
        RegisterU8::H => 4,
        RegisterU8::L => 5,
        RegisterU8::A => 7,
    }
}

/// Operand code of an operand that is a register or the byte at `HL`.
pub open spec fn operand_code(o: DoubleInputU8) -> int {
    match o {
        DoubleInputU8::Register(r) => reg_code(r),
        DoubleInputU8::Address => 6,
    }
}

/// Code of the condition field of a conditional jump, call or return.
pub open spec fn cond_code(c: JmpCmdCondition) -> int {
    match c {
        JmpCmdCondition::NZ => 0,
        JmpCmdCondition::Z => 1,
        JmpCmdCondition::NC => 2,
        JmpCmdCondition::C => 3,
    }
}

/// Operand for an operand code (0 to 7).
pub fn operand_from_code(code: u8) -> (o: DoubleInputU8)
    requires
        code < 8,
    ensures
        operand_code(o) == code,
{
    match code {
        0 => DoubleInputU8::Register(RegisterU8::B),
        1 => DoubleInputU8::Register(RegisterU8::C),
        2 => DoubleInputU8::Register(RegisterU8::D),
        3 => DoubleInputU8::Register(RegisterU8::E),
        4 => DoubleInputU8::Register(RegisterU8::H),
        5 => DoubleInputU8::Register(RegisterU8::L),
        6 => DoubleInputU8::Address,
        _ => DoubleInputU8::Register(RegisterU8::A),
    }
}

/// Register for an operand code other than 6.
pub fn register_from_code(code: u8) -> (r: RegisterU8)
    requires
        code < 8,
        code != 6,
    ensures
        reg_code(r) == code,
{
    match code {
        0 => RegisterU8::B,
        1 => RegisterU8::C,
        2 => RegisterU8::D,
        3 => RegisterU8::E,
        4 => RegisterU8::H,
        5 => RegisterU8::L,
        _ => RegisterU8::A,
    }
}

/// Condition for a condition code (0 to 3).
pub fn cond_from_code(code: u8) -> (c: JmpCmdCondition)
    requires
        code < 4,
    ensures
        cond_code(c) == code,
{
    match code {
        0 => JmpCmdCondition::NZ,
        1 => JmpCmdCondition::Z,
        2 => JmpCmdCondition::NC,
        _ => JmpCmdCondition::C,
    }
}

/// Bit 5 to 3 and bit 2 to 0 of an opcode, as numbers.
pub proof fn lemma_opcode_fields(op: u8)
    ensures
        (op >> 3) & 7 < 8,
        op & 7 < 8,
        op >> 6 < 4,
        op == 64 * (op >> 6) + 8 * ((op >> 3) & 7) + (op & 7),
{
    assert((op >> 3) & 7 < 8 && op & 7 < 8 && op >> 6 < 4 && op == 64 * (op >> 6) + 8 * ((op
        >> 3) & 7) + (op & 7)) by (bit_vector);
}

impl BitInput {
    /// The operand of a single-bit opcode: the bit index is bits 5 to 3, the
    /// operand code bits 2 to 0.
    pub fn from_opcode(opcode: u8) -> (r: Self)
        ensures
            r.0 == (opcode >> 3) & 7,
            operand_code(r.1) == opcode & 7,
            r.0 < 8,
    {
        proof {
            lemma_opcode_fields(opcode);
        }
        let reg_code = opcode & 0b0000_0111;
        let bit_index = (opcode >> 3) & 0b0000_0111;
        BitInput(bit_index, operand_from_code(reg_code))
    }
}

} // verus!
