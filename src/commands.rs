//! The command sets of the instruction model, one per instruction family.
use crate::input::{
    BitInput, CompoundInputU8, DoubleInputU8, InputU16, JPInput, JmpCmdInput, LDIncDecInputU8,
    LDInputU16, LDInputU8,
};
use vstd::prelude::*;

verus! {

/// 8-bit loads.
#[derive(Clone, Copy, Debug, PartialEq, Eq, Structural)]
pub enum LoadU8Cmd {
    LD(LDInputU8),
    /// Load through `HL`, then increment `HL`.
    LDI(LDIncDecInputU8),
    /// Load through `HL`, then decrement `HL`.
    LDD(LDIncDecInputU8),
}

/// 16-bit loads and the stack moves.
#[derive(Clone, Copy, Debug, PartialEq, Eq, Structural)]
pub enum LoadU16Cmd {
    LD(LDInputU16),
    PUSH(InputU16),
    POP(InputU16),
}

/// 8-bit arithmetic and logic.
#[derive(Clone, Copy, Debug, PartialEq, Eq, Structural)]
pub enum AritLogiU8Cmd {
    ADD(CompoundInputU8),
    ADC(CompoundInputU8),
    SUB(CompoundInputU8),
    SBC(CompoundInputU8),
    AND(CompoundInputU8),
    XOR(CompoundInputU8),
    OR(CompoundInputU8),
    CP(CompoundInputU8),
    INC(DoubleInputU8),
    DEC(DoubleInputU8),
    DAA,
    CPL,
}

/// 16-bit arithmetic.
#[derive(Clone, Copy, Debug, PartialEq, Eq, Structural)]
pub enum AritLogiU16Cmd {
    ADDHL(InputU16),
    INC(InputU16),
    DEC(InputU16),
    /// SP = SP + signed displacement
    ADDSP,
    /// HL = SP + signed displacement
    LDHLSP,
}

/// Rotates and shifts. The four accumulator forms are unprefixed opcodes;
/// the others are prefixed.
#[derive(Clone, Copy, Debug, PartialEq, Eq, Structural)]
pub enum RSCmd {
    RLCA,
    RLA,
    RRCA,
    RRA,
    RLC(DoubleInputU8),
    RL(DoubleInputU8),
    RRC(DoubleInputU8),
    RR(DoubleInputU8),
    SLA(DoubleInputU8),
    SWAP(DoubleInputU8),
    SRA(DoubleInputU8),
    SRL(DoubleInputU8),
}

/// Single-bit test, reset and set.
#[derive(Clone, Copy, Debug, PartialEq, Eq, Structural)]
pub enum BitCmd {
    BIT(BitInput),
    RES(BitInput),
    SET(BitInput),
}

/// CPU control.
#[derive(Clone, Copy, Debug, PartialEq, Eq, Structural)]
pub enum CtrCmd {
    CCF,
    SCF,
    NOP,
    HALT,
    STOP,
    DI,
    EI,
}

/// Jumps, calls, returns and restarts.
#[derive(Clone, Copy, Debug, PartialEq, Eq, Structural)]
pub enum JmpCmd {
    JP(JPInput),
    JR(JmpCmdInput),
    CALL(JmpCmdInput),
    RET(JmpCmdInput),
    RETI,
    /// Call to the fixed address given (0x00, 0x08, ..., 0x38).
    RST(u8),
}

} // verus!
