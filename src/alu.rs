//! What each arithmetic, logic, rotate, shift and bit operation computes:
//! its result and the flag record it leaves, as spec functions over plain
//! values. The executor's helpers are proved against these.
use crate::input::JmpCmdCondition;
use crate::register::FlagRegister;
use vstd::prelude::*;

verus! {

/// The flags that the rotates and shifts leave.
pub open spec fn shift_flags(res: u8, carry: bool) -> FlagRegister {
    FlagRegister { zero: res == 0, subtract: false, half_carry: false, carry }
}

/// ADD A,v: half-carry out of bit 3, carry on unsigned overflow.
pub open spec fn alu_add(a: u8, v: u8) -> (u8, FlagRegister) {
    let r = a.wrapping_add(v);
    (
        r,
        FlagRegister {
            zero: r == 0,
            subtract: false,
            half_carry: (a & 0xF) + (v & 0xF) > 0xF,
            carry: a + v > 0xFF,
        },
    )
}

/// ADC A,v: the carry is first folded into `v` (wrapping); half-carry is
/// taken on the folded value, carry is an overflow of either addition.
pub open spec fn alu_adc(a: u8, v: u8, carry_in: bool) -> (u8, FlagRegister) {
    let c: u8 = if carry_in { 1 } else { 0 };
    let folded = v.wrapping_add(c);
    let r = a.wrapping_add(folded);
    (
        r,
        FlagRegister {
            zero: r == 0,
            subtract: false,
            half_carry: (a & 0xF) + (folded & 0xF) > 0xF,
            carry: v + c > 0xFF || a + folded > 0xFF,
        },
    )
}

/// SUB A,v: half-carry when the low nibble does not borrow, carry when the
/// subtraction does not borrow.
pub open spec fn alu_sub(a: u8, v: u8) -> (u8, FlagRegister) {
    let r = a.wrapping_sub(v);
    (
        r,
        FlagRegister { zero: r == 0, subtract: true, half_carry: (a & 0xF) >= (v & 0xF), carry: a >= v },
    )
}

/// SBC A,v: the carry is folded into `v` (wrapping) and subtracted;
/// half-carry compares the low nibbles of `A` and the operand `v` itself,
/// carry is set when neither step borrows.
pub open spec fn alu_sbc(a: u8, v: u8, carry_in: bool) -> (u8, FlagRegister) {
    let c: u8 = if carry_in { 1 } else { 0 };
    let folded = v.wrapping_add(c);
    let r = a.wrapping_sub(folded);
    (
        r,
        FlagRegister {
            zero: r == 0,
            subtract: true,
            half_carry: (a & 0xF) >= (v & 0xF),
            carry: !(v + c > 0xFF || a < folded),
        },
    )
}

pub open spec fn alu_and(a: u8, v: u8) -> (u8, FlagRegister) {
    let r = a & v;
    (r, FlagRegister { zero: r == 0, subtract: false, half_carry: true, carry: false })
}

pub open spec fn alu_or(a: u8, v: u8) -> (u8, FlagRegister) {
    let r = a | v;
    (r, FlagRegister { zero: r == 0, subtract: false, half_carry: false, carry: false })
}

pub open spec fn alu_xor(a: u8, v: u8) -> (u8, FlagRegister) {
    let r = a ^ v;
    (r, FlagRegister { zero: r == 0, subtract: false, half_carry: false, carry: false })
}

/// CP A,v: the flags of a comparison; `A` is not written.
pub open spec fn alu_cp(a: u8, v: u8) -> FlagRegister {
    FlagRegister { zero: a == v, subtract: true, half_carry: (a & 0xF) >= (v & 0xF), carry: a < v }
}

/// INC: the carry flag of `f` is kept.
pub open spec fn alu_inc(v: u8, f: FlagRegister) -> (u8, FlagRegister) {
    let r = v.wrapping_add(1);
    (r, FlagRegister { zero: r == 0, subtract: false, half_carry: r & 0xF == 0, carry: f.carry })
}

/// DEC: the carry flag of `f` is kept.
pub open spec fn alu_dec(v: u8, f: FlagRegister) -> (u8, FlagRegister) {
    let r = v.wrapping_sub(1);
    (
        r,
        FlagRegister {
            zero: r == 0,
            subtract: true,
            half_carry: r.wrapping_add(1) & 0xF > 0,
            carry: f.carry,
        },
    )
}

/// CPL: `A` inverted; zero and carry kept.
pub open spec fn alu_cpl(a: u8, f: FlagRegister) -> (u8, FlagRegister) {
    (!a, FlagRegister { subtract: true, half_carry: true, ..f })
}

/// ADD HL,rr: half-carry out of bit 11, carry on unsigned 16-bit overflow.
pub open spec fn alu_addhl(hl: u16, v: u16) -> (u16, FlagRegister) {
    let r = hl.wrapping_add(v);
    (
        r,
        FlagRegister {
            zero: r == 0,
            subtract: false,
            half_carry: (hl & 0x0FFF) + (v & 0x0FFF) > 0x0FFF,
            carry: hl + v > 0xFFFF,
        },
    )
}

/// ADD SP,dd and LD HL,SP+dd: `SP` plus the signed displacement, wrapping at
/// 16 bits; zero and subtract clear, half-carry and carry taken from the
/// unsigned addition of the low byte of `SP` and the displacement byte.
pub open spec fn alu_add_sp(sp: u16, d: u8) -> (u16, FlagRegister) {
    (
        ((sp as int + signed_byte(d)) % 0x10000) as u16,
        FlagRegister {
            zero: false,
            subtract: false,
            half_carry: (sp & 0xF) + (d & 0xF) > 0xF,
            carry: (sp & 0xFF) + d > 0xFF,
        },
    )
}

pub open spec fn alu_rlc(v: u8) -> (u8, FlagRegister) {
    let r = (v << 1) | (v >> 7);
    (r, shift_flags(r, v & 0x80 != 0))
}

pub open spec fn alu_rrc(v: u8) -> (u8, FlagRegister) {
    let r = (v >> 1) | (v << 7);
    (r, shift_flags(r, v & 1 == 1))
}

pub open spec fn alu_rl(v: u8, carry_in: bool) -> (u8, FlagRegister) {
    let r = (v << 1) | (if carry_in { 1u8 } else { 0u8 });
    (r, shift_flags(r, v & 0x80 != 0))
}

pub open spec fn alu_rr(v: u8, carry_in: bool) -> (u8, FlagRegister) {
    let r = (v >> 1) | (if carry_in { 0x80u8 } else { 0u8 });
    (r, shift_flags(r, v & 1 == 1))
}

pub open spec fn alu_sla(v: u8) -> (u8, FlagRegister) {
    let r = v << 1;
    (r, shift_flags(r, v & 0x80 != 0))
}

pub open spec fn alu_sra(v: u8) -> (u8, FlagRegister) {
    let r = (v >> 1) | (v & 0x80);
    (r, shift_flags(r, v & 1 == 1))
}

pub open spec fn alu_srl(v: u8) -> (u8, FlagRegister) {
    let r = v >> 1;
    (r, shift_flags(r, v & 1 == 1))
}

pub open spec fn alu_swap(v: u8) -> (u8, FlagRegister) {
    let r = (v >> 4) | (v << 4);
    (r, shift_flags(r, false))
}

/// BIT b,v: zero when bit `b` of `v` is clear; carry kept.
pub open spec fn alu_bit(b: u8, v: u8, f: FlagRegister) -> FlagRegister {
    FlagRegister { zero: v & (1u8 << b) == 0, subtract: false, half_carry: true, carry: f.carry }
}

/// RES b,v: bit `b` cleared.
pub open spec fn alu_res(b: u8, v: u8) -> u8 {
    v & !(1u8 << b)
}

/// SET b,v: bit `b` set.
pub open spec fn alu_set(b: u8, v: u8) -> u8 {
    v | (1u8 << b)
}

/// Whether a jump condition holds under the given flags.
pub open spec fn cond_holds(f: FlagRegister, c: JmpCmdCondition) -> bool {
    match c {
        JmpCmdCondition::NZ => !f.zero,
        JmpCmdCondition::Z => f.zero,
        JmpCmdCondition::NC => !f.carry,
        JmpCmdCondition::C => f.carry,
    }
}

/// A displacement byte read as a two's-complement signed number.
pub open spec fn signed_byte(d: u8) -> int {
    if d < 0x80 {
        d as int
    } else {
        d as int - 0x100
    }
}

/// Target of a taken relative jump at `pc`: the address after the two-byte
/// instruction plus the signed displacement, wrapping at 16 bits.
pub open spec fn jr_target(pc: u16, d: u8) -> u16 {
    ((pc as int + 2 + signed_byte(d)) % 0x10000) as u16
}

/// Rotating left then right, circularly, gives back the byte.
pub proof fn lemma_rotate_round_trip(v: u8)
    ensures
        alu_rrc(alu_rlc(v).0).0 == v,
{
    assert((((((v << 1) | (v >> 7)) >> 1) | (((v << 1) | (v >> 7)) << 7))) == v) by (bit_vector);
}

} // verus!
