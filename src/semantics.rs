//! What executing one instruction does to the machine state, family by
//! family. Each function gives the state after the instruction (program
//! counter not yet moved) and the next program counter, or `None` for an
//! instruction whose execution this core does not define.
use crate::alu::{
    alu_adc, alu_add, alu_add_sp, alu_addhl, alu_and, alu_bit, alu_cp, alu_cpl, alu_dec, alu_inc, alu_or,
    alu_res, alu_rl, alu_rlc, alu_rr, alu_rrc, alu_sbc, alu_set, alu_sla, alu_sra, alu_srl,
    alu_sub, alu_swap, alu_xor, cond_holds, jr_target,
};
use crate::commands::{
    AritLogiU16Cmd, AritLogiU8Cmd, BitCmd, CtrCmd, JmpCmd, LoadU16Cmd, LoadU8Cmd, RSCmd,
};
use crate::cpu::CpuState;
use crate::input::{
    BitInput, CompoundInputU8, DoubleInputU8, InputU16, JPInput, JmpCmdInput, LDIncDecInputU8, LDInputU16,
    LDInputU8,
};
use crate::instruction::Instruction;
use crate::register::{high_byte, join_bytes, low_byte, FlagRegister, RegisterU16};
use vstd::prelude::*;

verus! {

/// Address of I/O port `n`: `0xFF00 + n`.
pub open spec fn io_address(n: u8) -> u16 {
    (0xFF00 + n) as u16
}

/// The program counter `n` bytes on, wrapping at 16 bits.
pub open spec fn advance(s: CpuState, n: u16) -> u16 {
    s.pc.wrapping_add(n)
}

/// Pushes a word: the high byte at `SP - 1`, the low byte at `SP - 2`, and
/// `SP` lowered by two.
pub open spec fn push_word(s: CpuState, v: u16) -> CpuState {
    let hi_at = s.sp.wrapping_sub(1);
    let lo_at = hi_at.wrapping_sub(1);
    s.write(hi_at, high_byte(v)).write(lo_at, low_byte(v)).with_sp(lo_at)
}

/// The word on top of the stack: low byte at `SP`, high byte at `SP + 1`.
pub open spec fn top_word(s: CpuState) -> u16 {
    join_bytes(s.read(s.sp.wrapping_add(1)), s.read(s.sp))
}

/// The state after popping a word: `SP` raised by two.
pub open spec fn popped(s: CpuState) -> CpuState {
    s.with_sp(s.sp.wrapping_add(2))
}

pub open spec fn load8_step(s: CpuState, c: LoadU8Cmd) -> (CpuState, u16) {
    let a = s.registers.a;
    let hl = s.hl();
    match c {
        LoadU8Cmd::LD(x) => match x {
            LDInputU8::RR(d, r) => (s.with_reg(d, s.registers.spec_u8(r)), advance(s, 1)),
            LDInputU8::RI(r) => (s.with_reg(r, s.imm8()), advance(s, 2)),
            LDInputU8::RHL(r) => (s.with_reg(r, s.read(hl)), advance(s, 1)),
            LDInputU8::HLR(r) => (s.write(hl, s.registers.spec_u8(r)), advance(s, 1)),
            LDInputU8::HLI => (s.write(hl, s.imm8()), advance(s, 2)),
            LDInputU8::ABC => (s.with_a(s.read(s.pair(RegisterU16::BC))), advance(s, 1)),
            LDInputU8::ADE => (s.with_a(s.read(s.pair(RegisterU16::DE))), advance(s, 1)),
            LDInputU8::AII => (s.with_a(s.read(s.imm16())), advance(s, 3)),
            LDInputU8::BCA => (s.write(s.pair(RegisterU16::BC), a), advance(s, 1)),
            LDInputU8::DEA => (s.write(s.pair(RegisterU16::DE), a), advance(s, 1)),
            LDInputU8::IIA => (s.write(s.imm16(), a), advance(s, 3)),
            LDInputU8::ReadIoN => (s.with_a(s.read(io_address(s.imm8()))), advance(s, 2)),
            LDInputU8::WriteIoN => (s.write(io_address(s.imm8()), a), advance(s, 2)),
            LDInputU8::ReadIoC => (s.with_a(s.read(io_address(s.registers.c))), advance(s, 1)),
            LDInputU8::WriteIoC => (s.write(io_address(s.registers.c), a), advance(s, 1)),
        },
        LoadU8Cmd::LDI(LDIncDecInputU8::HLA) => (
            s.write(hl, a).with_pair(RegisterU16::HL, hl.wrapping_add(1)),
            advance(s, 1),
        ),
        LoadU8Cmd::LDI(LDIncDecInputU8::AHL) => (
            s.with_a(s.read(hl)).with_pair(RegisterU16::HL, hl.wrapping_add(1)),
            advance(s, 1),
        ),
        LoadU8Cmd::LDD(LDIncDecInputU8::HLA) => (
            s.write(hl, a).with_pair(RegisterU16::HL, hl.wrapping_sub(1)),
            advance(s, 1),
        ),
        LoadU8Cmd::LDD(LDIncDecInputU8::AHL) => (
            s.with_a(s.read(hl)).with_pair(RegisterU16::HL, hl.wrapping_sub(1)),
            advance(s, 1),
        ),
    }
}

pub open spec fn load16_step(s: CpuState, c: LoadU16Cmd) -> (CpuState, u16) {
    match c {
        LoadU16Cmd::LD(LDInputU16::RRNN(p)) => (s.with_pair(p, s.imm16()), advance(s, 3)),
        LoadU16Cmd::LD(LDInputU16::SPHL) => (s.with_sp(s.hl()), advance(s, 1)),
        LoadU16Cmd::LD(LDInputU16::NNSP) => {
            let at = s.imm16();
            (
                s.write(at, low_byte(s.sp)).write(at.wrapping_add(1), high_byte(s.sp)),
                advance(s, 3),
            )
        },
        LoadU16Cmd::PUSH(InputU16(p)) => (push_word(s, s.pair(p)), advance(s, 1)),
        LoadU16Cmd::POP(InputU16(p)) => (popped(s).with_pair(p, top_word(s)), advance(s, 1)),
    }
}

/// The state after an 8-bit operation that writes `A` and the flags.
pub open spec fn to_a(s: CpuState, out: (u8, FlagRegister)) -> CpuState {
    s.with_a(out.0).with_flags(out.1)
}

/// Program counter after an 8-bit operation: the immediate form is two bytes.
pub open spec fn after_operand(s: CpuState, x: CompoundInputU8) -> u16 {
    if x == CompoundInputU8::Immediate {
        advance(s, 2)
    } else {
        advance(s, 1)
    }
}

pub open spec fn alu8_step(s: CpuState, c: AritLogiU8Cmd) -> Option<(CpuState, u16)> {
    let a = s.registers.a;
    let f = s.registers.f;
    match c {
        AritLogiU8Cmd::ADD(x) => Some((to_a(s, alu_add(a, s.compound(x))), after_operand(s, x))),
        AritLogiU8Cmd::ADC(x) => Some(
            (to_a(s, alu_adc(a, s.compound(x), f.carry)), after_operand(s, x)),
        ),
        AritLogiU8Cmd::SUB(x) => Some((to_a(s, alu_sub(a, s.compound(x))), after_operand(s, x))),
        AritLogiU8Cmd::SBC(x) => Some(
            (to_a(s, alu_sbc(a, s.compound(x), f.carry)), after_operand(s, x)),
        ),
        AritLogiU8Cmd::AND(x) => Some((to_a(s, alu_and(a, s.compound(x))), after_operand(s, x))),
        AritLogiU8Cmd::XOR(x) => Some((to_a(s, alu_xor(a, s.compound(x))), after_operand(s, x))),
        AritLogiU8Cmd::OR(x) => Some((to_a(s, alu_or(a, s.compound(x))), after_operand(s, x))),
        AritLogiU8Cmd::CP(x) => Some((s.with_flags(alu_cp(a, s.compound(x))), after_operand(s, x))),
        AritLogiU8Cmd::INC(o) => {
            let out = alu_inc(s.operand(o), f);
            Some((s.with_operand(o, out.0).with_flags(out.1), advance(s, 1)))
        },
        AritLogiU8Cmd::DEC(o) => {
            let out = alu_dec(s.operand(o), f);
            Some((s.with_operand(o, out.0).with_flags(out.1), advance(s, 1)))
        },
        AritLogiU8Cmd::DAA => None,
        AritLogiU8Cmd::CPL => Some((to_a(s, alu_cpl(a, f)), advance(s, 1))),
    }
}

pub open spec fn alu16_step(s: CpuState, c: AritLogiU16Cmd) -> Option<(CpuState, u16)> {
    match c {
        AritLogiU16Cmd::ADDHL(InputU16(p)) => {
            let out = alu_addhl(s.hl(), s.pair(p));
            Some((s.with_flags(out.1).with_pair(RegisterU16::HL, out.0), advance(s, 1)))
        },
        AritLogiU16Cmd::INC(InputU16(p)) => Some(
            (s.with_pair(p, s.pair(p).wrapping_add(1)), advance(s, 1)),
        ),
        AritLogiU16Cmd::DEC(InputU16(p)) => Some(
            (s.with_pair(p, s.pair(p).wrapping_sub(1)), advance(s, 1)),
        ),
        AritLogiU16Cmd::ADDSP => {
            let out = alu_add_sp(s.sp, s.imm8());
            Some((s.with_flags(out.1).with_sp(out.0), advance(s, 2)))
        },
        AritLogiU16Cmd::LDHLSP => {
            let out = alu_add_sp(s.sp, s.imm8());
            Some((s.with_flags(out.1).with_pair(RegisterU16::HL, out.0), advance(s, 2)))
        },
    }
}

pub open spec fn rotate_step(s: CpuState, c: RSCmd) -> (CpuState, u16) {
    let a = s.registers.a;
    let carry = s.registers.f.carry;
    match c {
        RSCmd::RLCA => (to_a(s, alu_rlc(a)), advance(s, 1)),
        RSCmd::RLA => (to_a(s, alu_rl(a, carry)), advance(s, 1)),
        RSCmd::RRCA => (to_a(s, alu_rrc(a)), advance(s, 1)),
        RSCmd::RRA => (to_a(s, alu_rr(a, carry)), advance(s, 1)),
        RSCmd::RLC(o) => {
            let out = alu_rlc(s.operand(o));
            (s.with_operand(o, out.0).with_flags(out.1), advance(s, 2))
        },
        RSCmd::RL(o) => {
            let out = alu_rl(s.operand(o), carry);
            (s.with_operand(o, out.0).with_flags(out.1), advance(s, 2))
        },
        RSCmd::RRC(o) => {
            let out = alu_rrc(s.operand(o));
            (s.with_operand(o, out.0).with_flags(out.1), advance(s, 2))
        },
        RSCmd::RR(o) => {
            let out = alu_rr(s.operand(o), carry);
            (s.with_operand(o, out.0).with_flags(out.1), advance(s, 2))
        },
        RSCmd::SLA(o) => {
            let out = alu_sla(s.operand(o));
            (s.with_operand(o, out.0).with_flags(out.1), advance(s, 2))
        },
        RSCmd::SWAP(o) => {
            let out = alu_swap(s.operand(o));
            (s.with_operand(o, out.0).with_flags(out.1), advance(s, 2))
        },
        RSCmd::SRA(o) => {
            let out = alu_sra(s.operand(o));
            (s.with_operand(o, out.0).with_flags(out.1), advance(s, 2))
        },
        RSCmd::SRL(o) => {
            let out = alu_srl(s.operand(o));
            (s.with_operand(o, out.0).with_flags(out.1), advance(s, 2))
        },
    }
}

pub open spec fn bit_step(s: CpuState, c: BitCmd) -> (CpuState, u16) {
    match c {
        BitCmd::BIT(BitInput(b, o)) => (
            s.with_flags(alu_bit(b, s.operand(o), s.registers.f)),
            advance(s, 2),
        ),
        BitCmd::RES(BitInput(b, o)) => (s.with_operand(o, alu_res(b, s.operand(o))), advance(s, 2)),
        BitCmd::SET(BitInput(b, o)) => (s.with_operand(o, alu_set(b, s.operand(o))), advance(s, 2)),
    }
}

pub open spec fn control_step(s: CpuState, c: CtrCmd) -> Option<(CpuState, u16)> {
    let f = s.registers.f;
    match c {
        CtrCmd::CCF => Some(
            (
                s.with_flags(FlagRegister { subtract: false, half_carry: false, carry: !f.carry, ..f }),
                advance(s, 1),
            ),
        ),
        CtrCmd::SCF => Some(
            (
                s.with_flags(FlagRegister { subtract: false, half_carry: false, carry: true, ..f }),
                advance(s, 1),
            ),
        ),
        CtrCmd::NOP => Some((s, advance(s, 1))),
        _ => None,
    }
}

pub open spec fn jump_step(s: CpuState, c: JmpCmd) -> Option<(CpuState, u16)> {
    let f = s.registers.f;
    match c {
        JmpCmd::JP(JPInput::Direct) => Some((s, s.imm16())),
        JmpCmd::JP(JPInput::HL) => Some((s, s.hl())),
        JmpCmd::JP(JPInput::Conditional(k)) => Some(
            (
                s,
                if cond_holds(f, k) {
                    s.imm16()
                } else {
                    advance(s, 3)
                },
            ),
        ),
        JmpCmd::JR(JmpCmdInput::Direct) => Some((s, jr_target(s.pc, s.imm8()))),
        JmpCmd::JR(JmpCmdInput::Conditional(k)) => Some(
            (
                s,
                if cond_holds(f, k) {
                    jr_target(s.pc, s.imm8())
                } else {
                    advance(s, 2)
                },
            ),
        ),
        JmpCmd::CALL(JmpCmdInput::Direct) => Some((push_word(s, advance(s, 3)), s.imm16())),
        JmpCmd::CALL(JmpCmdInput::Conditional(k)) => Some(
            if cond_holds(f, k) {
                (push_word(s, advance(s, 3)), s.imm16())
            } else {
                (s, advance(s, 3))
            },
        ),
        JmpCmd::RET(JmpCmdInput::Direct) => Some((popped(s), top_word(s))),
        JmpCmd::RET(JmpCmdInput::Conditional(k)) => Some(
            if cond_holds(f, k) {
                (popped(s), top_word(s))
            } else {
                (s, advance(s, 1))
            },
        ),
        JmpCmd::RETI => None,
        JmpCmd::RST(v) => Some((push_word(s, advance(s, 1)), v as u16)),
    }
}

/// The 8-bit loads, and every 16-bit load but those that write `AF`, leave
/// the flags exactly as they were.
pub proof fn lemma_loads_keep_flags(s: CpuState, c8: LoadU8Cmd, c16: LoadU16Cmd)
    requires
        c16 != LoadU16Cmd::POP(InputU16(RegisterU16::AF)),
        c16 != LoadU16Cmd::LD(LDInputU16::RRNN(RegisterU16::AF)),
    ensures
        load8_step(s, c8).0.registers.f == s.registers.f,
        load16_step(s, c16).0.registers.f == s.registers.f,
{
}

/// BIT leaves the tested byte as it was; RES and SET leave the flags as they
/// were.
pub proof fn lemma_bit_ops_keep_the_rest(s: CpuState, b: u8, o: DoubleInputU8)
    ensures
        bit_step(s, BitCmd::BIT(BitInput(b, o))).0.operand(o) == s.operand(o),
        bit_step(s, BitCmd::RES(BitInput(b, o))).0.registers.f == s.registers.f,
        bit_step(s, BitCmd::SET(BitInput(b, o))).0.registers.f == s.registers.f,
{
}

/// Whether the operands of an instruction are in range: bit indices are
/// 0 to 7.
pub open spec fn operands_valid(i: Instruction) -> bool {
    match i {
        Instruction::SingleBit(BitCmd::BIT(BitInput(b, _))) => b < 8,
        Instruction::SingleBit(BitCmd::RES(BitInput(b, _))) => b < 8,
        Instruction::SingleBit(BitCmd::SET(BitInput(b, _))) => b < 8,
        _ => true,
    }
}

/// The state after executing `i` (program counter not yet moved) and the
/// next program counter; `None` when this core does not define `i`.
pub open spec fn execute_step(s: CpuState, i: Instruction) -> Option<(CpuState, u16)> {
    match i {
        Instruction::Load8Bit(c) => Some(load8_step(s, c)),
        Instruction::Load16Bit(c) => Some(load16_step(s, c)),
        Instruction::ArithmeticLogical8Bit(c) => alu8_step(s, c),
        Instruction::ArithmeticLogical16Bit(c) => alu16_step(s, c),
        Instruction::RotateShift(c) => Some(rotate_step(s, c)),
        Instruction::SingleBit(c) => Some(bit_step(s, c)),
        Instruction::Control(c) => control_step(s, c),
        Instruction::Jump(c) => jump_step(s, c),
    }
}

} // verus!
