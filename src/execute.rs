//! Executing decoded instructions, and the single fetch-decode-execute-advance
//! step.
use crate::commands::{
    AritLogiU16Cmd, AritLogiU8Cmd, BitCmd, CtrCmd, JmpCmd, LoadU16Cmd, LoadU8Cmd, RSCmd,
};
use crate::cpu::CPU;
use crate::input::{
    BitInput, CompoundInputU8, InputU16, JPInput, JmpCmdInput, LDIncDecInputU8, LDInputU16,
    LDInputU8,
};
use crate::instruction::{encoding, is_unassigned, lemma_encoding_unique, Instruction, PREFIX_BYTE};
use crate::semantics::{
    alu16_step, alu8_step, bit_step, control_step, execute_step, jump_step, load16_step,
    load8_step, operands_valid, rotate_step,
};
use vstd::prelude::*;

verus! {

/// Why a step could not be carried out. Either way the machine state is left
/// as it was.
#[derive(Clone, Copy, Debug, PartialEq, Eq, Structural)]
pub enum ExecutionError {
    /// The unprefixed opcode byte names no instruction.
    DecodeFailure(u8),
    /// The instruction is part of the architecture, but this core does not
    /// define its execution.
    UnimplementedOperation(Instruction),
}

/// The opcode that a step at `pc` decodes, and whether it followed the
/// escape byte.
pub open spec fn fetched(mem: Seq<u8>, pc: u16) -> (u8, bool) {
    if mem[pc as int] == PREFIX_BYTE {
        (mem[pc.wrapping_add(1) as int], true)
    } else {
        (mem[pc as int], false)
    }
}

impl CPU {
    fn execute_load8(&mut self, c: LoadU8Cmd) -> (r: u16)
        ensures
            (final(self)@, r) == load8_step(old(self)@, c),
    {
        match c {
            LoadU8Cmd::LD(x) => match x {
                LDInputU8::RR(d, s) => {
                    let v = self.registers.get_u8(s);
                    self.registers.set_u8(d, v);
                    self.pc.wrapping_add(1)
                },
                LDInputU8::RI(d) => {
                    let v = self.read_immediate_u8();
                    self.registers.set_u8(d, v);
                    self.pc.wrapping_add(2)
                },
                LDInputU8::RHL(d) => {
                    let v = self.bus.read_byte(self.registers.get_hl());
                    self.registers.set_u8(d, v);
                    self.pc.wrapping_add(1)
                },
                LDInputU8::HLR(s) => {
                    let at = self.registers.get_hl();
                    self.bus.write_byte(at, self.registers.get_u8(s));
                    self.pc.wrapping_add(1)
                },
                LDInputU8::HLI => {
                    let at = self.registers.get_hl();
                    let v = self.read_immediate_u8();
                    self.bus.write_byte(at, v);
                    self.pc.wrapping_add(2)
                },
                LDInputU8::ABC => {
                    self.registers.a = self.bus.read_byte(self.registers.get_bc());
                    self.pc.wrapping_add(1)
                },
                LDInputU8::ADE => {
                    self.registers.a = self.bus.read_byte(self.registers.get_de());
                    self.pc.wrapping_add(1)
                },
                LDInputU8::AII => {
                    self.registers.a = self.bus.read_byte(self.read_immediate_u16());
                    self.pc.wrapping_add(3)
                },
                LDInputU8::BCA => {
                    let at = self.registers.get_bc();
                    self.bus.write_byte(at, self.registers.a);
                    self.pc.wrapping_add(1)
                },
                LDInputU8::DEA => {
                    let at = self.registers.get_de();
                    self.bus.write_byte(at, self.registers.a);
                    self.pc.wrapping_add(1)
                },
                LDInputU8::IIA => {
                    let at = self.read_immediate_u16();
                    self.bus.write_byte(at, self.registers.a);
                    self.pc.wrapping_add(3)
                },
                LDInputU8::ReadIoN => {
                    let at = 0xFF00u16 + self.read_immediate_u8() as u16;
                    self.registers.a = self.bus.read_byte(at);
                    self.pc.wrapping_add(2)
                },
                LDInputU8::WriteIoN => {
                    let at = 0xFF00u16 + self.read_immediate_u8() as u16;
                    self.bus.write_byte(at, self.registers.a);
                    self.pc.wrapping_add(2)
                },
                LDInputU8::ReadIoC => {
                    let at = 0xFF00u16 + self.registers.c as u16;
                    self.registers.a = self.bus.read_byte(at);
                    self.pc.wrapping_add(1)
                },
                LDInputU8::WriteIoC => {
                    let at = 0xFF00u16 + self.registers.c as u16;
                    self.bus.write_byte(at, self.registers.a);
                    self.pc.wrapping_add(1)
                },
            },
            LoadU8Cmd::LDI(x) => {
                let hl = self.load_through_hl(x);
                self.registers.set_hl(hl.wrapping_add(1));
                self.pc.wrapping_add(1)
            },
            LoadU8Cmd::LDD(x) => {
                let hl = self.load_through_hl(x);
                self.registers.set_hl(hl.wrapping_sub(1));
                self.pc.wrapping_add(1)
            },
        }
    }

    /// The transfer of LDI and LDD, before `HL` moves; returns `HL`.
    fn load_through_hl(&mut self, x: LDIncDecInputU8) -> (hl: u16)
        ensures
            hl == old(self)@.hl(),
            final(self)@ == match x {
                LDIncDecInputU8::HLA => old(self)@.write(hl, old(self).registers.a),
                LDIncDecInputU8::AHL => old(self)@.with_a(old(self)@.read(hl)),
            },
    {
        let hl = self.registers.get_hl();
        match x {
            LDIncDecInputU8::HLA => self.bus.write_byte(hl, self.registers.a),
            LDIncDecInputU8::AHL => self.registers.a = self.bus.read_byte(hl),
        }
        hl
    }

    fn execute_load16(&mut self, c: LoadU16Cmd) -> (r: u16)
        ensures
            (final(self)@, r) == load16_step(old(self)@, c),
    {
        match c {
            LoadU16Cmd::LD(LDInputU16::RRNN(p)) => {
                let v = self.read_immediate_u16();
                self.set_pair(p, v);
                self.pc.wrapping_add(3)
            },
            LoadU16Cmd::LD(LDInputU16::SPHL) => {
                self.sp = self.registers.get_hl();
                self.pc.wrapping_add(1)
            },
            LoadU16Cmd::LD(LDInputU16::NNSP) => {
                let at = self.read_immediate_u16();
                self.bus.write_byte(at, (self.sp & 0xFF) as u8);
                self.bus.write_byte(at.wrapping_add(1), (self.sp >> 8) as u8);
                self.pc.wrapping_add(3)
            },
            LoadU16Cmd::PUSH(InputU16(p)) => {
                let v = self.get_pair(p);
                self.push_word(v);
                self.pc.wrapping_add(1)
            },
            LoadU16Cmd::POP(InputU16(p)) => {
                let v = self.pop_word();
                self.set_pair(p, v);
                self.pc.wrapping_add(1)
            },
        }
    }

    /// Program counter after an 8-bit operation on `x`.
    fn after_operand(&self, x: CompoundInputU8) -> (r: u16)
        ensures
            r == crate::semantics::after_operand(self@, x),
    {
        if x == CompoundInputU8::Immediate {
            self.pc.wrapping_add(2)
        } else {
            self.pc.wrapping_add(1)
        }
    }

    fn execute_alu8(&mut self, c: AritLogiU8Cmd) -> (r: Option<u16>)
        ensures
            match alu8_step(old(self)@, c) {
                Some((s, n)) => r == Some(n) && final(self)@ == s,
                None => r is None && final(self)@ == old(self)@,
            },
    {
        match c {
            AritLogiU8Cmd::ADD(x) => {
                let v = self.read_compound(x);
                self.registers.a = self.add(v);
                Some(self.after_operand(x))
            },
            AritLogiU8Cmd::ADC(x) => {
                let v = self.read_compound(x);
                self.registers.a = self.adc(v);
                Some(self.after_operand(x))
            },
            AritLogiU8Cmd::SUB(x) => {
                let v = self.read_compound(x);
                self.registers.a = self.sub(v);
                Some(self.after_operand(x))
            },
            AritLogiU8Cmd::SBC(x) => {
                let v = self.read_compound(x);
                self.registers.a = self.sbc(v);
                Some(self.after_operand(x))
            },
            AritLogiU8Cmd::AND(x) => {
                let v = self.read_compound(x);
                self.registers.a = self.and(v);
                Some(self.after_operand(x))
            },
            AritLogiU8Cmd::XOR(x) => {
                let v = self.read_compound(x);
                self.registers.a = self.xor(v);
                Some(self.after_operand(x))
            },
            AritLogiU8Cmd::OR(x) => {
                let v = self.read_compound(x);
                self.registers.a = self.or(v);
                Some(self.after_operand(x))
            },
            AritLogiU8Cmd::CP(x) => {
                let v = self.read_compound(x);
                self.cp(v);
                Some(self.after_operand(x))
            },
            AritLogiU8Cmd::INC(o) => {
                let v = self.read_operand(o).wrapping_add(1);
                self.write_operand(o, v);
                self.inc_flags(v);
                Some(self.pc.wrapping_add(1))
            },
            AritLogiU8Cmd::DEC(o) => {
                let v = self.read_operand(o).wrapping_sub(1);
                self.write_operand(o, v);
                self.dec_flags(v);
                Some(self.pc.wrapping_add(1))
            },
            AritLogiU8Cmd::DAA => None,
            AritLogiU8Cmd::CPL => {
                self.registers.a = !self.registers.a;
                self.registers.f.subtract = true;
                self.registers.f.half_carry = true;
                Some(self.pc.wrapping_add(1))
            },
        }
    }

    fn execute_alu16(&mut self, c: AritLogiU16Cmd) -> (r: Option<u16>)
        ensures
            match alu16_step(old(self)@, c) {
                Some((s, n)) => r == Some(n) && final(self)@ == s,
                None => r is None && final(self)@ == old(self)@,
            },
    {
        match c {
            AritLogiU16Cmd::ADDHL(InputU16(p)) => {
                let v = self.get_pair(p);
                let sum = self.addhl(v);
                self.registers.set_hl(sum);
                Some(self.pc.wrapping_add(1))
            },
            AritLogiU16Cmd::INC(InputU16(p)) => {
                let v = self.get_pair(p).wrapping_add(1);
                self.set_pair(p, v);
                Some(self.pc.wrapping_add(1))
            },
            AritLogiU16Cmd::DEC(InputU16(p)) => {
                let v = self.get_pair(p).wrapping_sub(1);
                self.set_pair(p, v);
                Some(self.pc.wrapping_add(1))
            },
            AritLogiU16Cmd::ADDSP => {
                let d = self.read_immediate_u8();
                self.sp = self.add_sp(d);
                Some(self.pc.wrapping_add(2))
            },
            AritLogiU16Cmd::LDHLSP => {
                let d = self.read_immediate_u8();
                let v = self.add_sp(d);
                self.registers.set_hl(v);
                Some(self.pc.wrapping_add(2))
            },
        }
    }

    fn execute_rotate(&mut self, c: RSCmd) -> (r: u16)
        ensures
            (final(self)@, r) == rotate_step(old(self)@, c),
    {
        match c {
            RSCmd::RLCA => {
                self.registers.a = self.rlc(self.registers.a);
                self.pc.wrapping_add(1)
            },
            RSCmd::RLA => {
                self.registers.a = self.rl(self.registers.a);
                self.pc.wrapping_add(1)
            },
            RSCmd::RRCA => {
                self.registers.a = self.rrc(self.registers.a);
                self.pc.wrapping_add(1)
            },
            RSCmd::RRA => {
                self.registers.a = self.rr(self.registers.a);
                self.pc.wrapping_add(1)
            },
            RSCmd::RLC(o) | RSCmd::RL(o) | RSCmd::RRC(o) | RSCmd::RR(o) | RSCmd::SLA(o)
            | RSCmd::SWAP(o) | RSCmd::SRA(o) | RSCmd::SRL(o) => {
                let v = self.read_operand(o);
                let res = match c {
                    RSCmd::RLC(_) => self.rlc(v),
                    RSCmd::RL(_) => self.rl(v),
                    RSCmd::RRC(_) => self.rrc(v),
                    RSCmd::RR(_) => self.rr(v),
                    RSCmd::SLA(_) => self.sla(v),
                    RSCmd::SWAP(_) => self.swap(v),
                    RSCmd::SRA(_) => self.sra(v),
                    _ => self.srl(v),
                };
                self.write_operand(o, res);
                self.pc.wrapping_add(2)
            },
        }
    }

    fn execute_bit(&mut self, c: BitCmd) -> (r: u16)
        requires
            operands_valid(Instruction::SingleBit(c)),
        ensures
            (final(self)@, r) == bit_step(old(self)@, c),
    {
        match c {
            BitCmd::BIT(BitInput(b, o)) => {
                let v = self.read_operand(o);
                self.bit(b, v);
            },
            BitCmd::RES(BitInput(b, o)) => {
                let v = self.read_operand(o);
                let res = self.res(b, v);
                self.write_operand(o, res);
            },
            BitCmd::SET(BitInput(b, o)) => {
                let v = self.read_operand(o);
                let res = self.set(b, v);
                self.write_operand(o, res);
            },
        }
        self.pc.wrapping_add(2)
    }

    fn execute_control(&mut self, c: CtrCmd) -> (r: Option<u16>)
        ensures
            match control_step(old(self)@, c) {
                Some((s, n)) => r == Some(n) && final(self)@ == s,
                None => r is None && final(self)@ == old(self)@,
            },
    {
        match c {
            CtrCmd::CCF => {
                self.registers.f.subtract = false;
                self.registers.f.half_carry = false;
                self.registers.f.carry = !self.registers.f.carry;
                Some(self.pc.wrapping_add(1))
            },
            CtrCmd::SCF => {
                self.registers.f.subtract = false;
                self.registers.f.half_carry = false;
                self.registers.f.carry = true;
                Some(self.pc.wrapping_add(1))
            },
            CtrCmd::NOP => Some(self.pc.wrapping_add(1)),
            CtrCmd::HALT | CtrCmd::STOP | CtrCmd::DI | CtrCmd::EI => None,
        }
    }

    fn execute_jump(&mut self, c: JmpCmd) -> (r: Option<u16>)
        ensures
            match jump_step(old(self)@, c) {
                Some((s, n)) => r == Some(n) && final(self)@ == s,
                None => r is None && final(self)@ == old(self)@,
            },
    {
        match c {
            JmpCmd::JP(JPInput::Direct) => Some(self.jump(true)),
            JmpCmd::JP(JPInput::HL) => Some(self.registers.get_hl()),
            JmpCmd::JP(JPInput::Conditional(k)) => {
                let taken = self.check_cond(k);
                Some(self.jump(taken))
            },
            JmpCmd::JR(JmpCmdInput::Direct) => Some(self.jump_relative(true)),
            JmpCmd::JR(JmpCmdInput::Conditional(k)) => {
                let taken = self.check_cond(k);
                Some(self.jump_relative(taken))
            },
            JmpCmd::CALL(input) => {
                let taken = match input {
                    JmpCmdInput::Direct => true,
                    JmpCmdInput::Conditional(k) => self.check_cond(k),
                };
                let next = self.pc.wrapping_add(3);
                if taken {
                    let target = self.read_immediate_u16();
                    self.push_word(next);
                    Some(target)
                } else {
                    Some(next)
                }
            },
            JmpCmd::RET(input) => {
                let taken = match input {
                    JmpCmdInput::Direct => true,
                    JmpCmdInput::Conditional(k) => self.check_cond(k),
                };
                if taken {
                    Some(self.pop_word())
                } else {
                    Some(self.pc.wrapping_add(1))
                }
            },
            JmpCmd::RETI => None,
            JmpCmd::RST(v) => {
                let next = self.pc.wrapping_add(1);
                self.push_word(next);
                Some(v as u16)
            },
        }
    }

    /// Executes one decoded instruction and returns the next program counter,
    /// which the caller commits. An instruction this core does not define is
    /// reported and leaves the state untouched.
    pub fn execute(&mut self, instruction: Instruction) -> (r: Result<u16, ExecutionError>)
        requires
            operands_valid(instruction),
        ensures
            match execute_step(old(self)@, instruction) {
                Some((s, n)) => r == Ok::<u16, ExecutionError>(n) && final(self)@ == s,
                None => r == Err::<u16, ExecutionError>(
                    ExecutionError::UnimplementedOperation(instruction),
                ) && final(self)@ == old(self)@,
            },
    {
        let next = match instruction {
            Instruction::Load8Bit(c) => Some(self.execute_load8(c)),
            Instruction::Load16Bit(c) => Some(self.execute_load16(c)),
            Instruction::ArithmeticLogical8Bit(c) => self.execute_alu8(c),
            Instruction::ArithmeticLogical16Bit(c) => self.execute_alu16(c),
            Instruction::RotateShift(c) => Some(self.execute_rotate(c)),
            Instruction::SingleBit(c) => Some(self.execute_bit(c)),
            Instruction::Control(c) => self.execute_control(c),
            Instruction::Jump(c) => self.execute_jump(c),
        };
        match next {
            Some(n) => Ok(n),
            None => Err(ExecutionError::UnimplementedOperation(instruction)),
        }
    }

    /// One fetch-decode-execute-advance step. The byte at `pc` is read; the
    /// escape byte makes the next byte the opcode, decoded in the prefixed
    /// table. On success the program counter is replaced by the value the
    /// instruction computed; on failure nothing changes.
    pub fn step(&mut self) -> (r: Result<(), ExecutionError>)
        ensures
            ({
                let (opcode, prefixed) = fetched(old(self)@.memory, old(self).pc);
                &&& (r == Err::<(), ExecutionError>(ExecutionError::DecodeFailure(opcode))) <==> (
                !prefixed && is_unassigned(opcode))
                &&& match r {
                    Ok(()) => (exists|i: Instruction|
                        #![trigger encoding(i, prefixed)]
                        encoding(i, prefixed) == Some(opcode as int)) && (forall|i: Instruction|
                        #![trigger encoding(i, prefixed)]
                        encoding(i, prefixed) == Some(opcode as int) ==> (execute_step(
                            old(self)@,
                            i,
                        ) matches Some((s, n)) && final(self)@ == s.with_pc(n))),
                    Err(ExecutionError::DecodeFailure(b)) => b == opcode && final(self)@ == old(
                        self,
                    )@,
                    Err(ExecutionError::UnimplementedOperation(i)) => encoding(i, prefixed) == Some(
                        opcode as int,
                    ) && execute_step(old(self)@, i) is None && final(self)@ == old(self)@,
                }
            }),
    {
        let first = self.bus.read_byte(self.pc);
        let prefixed = first == PREFIX_BYTE;
        let opcode = if prefixed {
            self.bus.read_byte(self.pc.wrapping_add(1))
        } else {
            first
        };
        match Instruction::from_byte(opcode, prefixed) {
            None => Err(ExecutionError::DecodeFailure(opcode)),
            Some(instruction) => {
                proof {
                    lemma_encoded_operands_valid(instruction, prefixed);
                    assert forall|i: Instruction|
                        #![trigger encoding(i, prefixed)]
                        encoding(i, prefixed) == Some(opcode as int) implies i == instruction by {
                        lemma_encoding_unique(instruction, i, prefixed);
                    }
                }
                match self.execute(instruction) {
                    Ok(next) => {
                        self.pc = next;
                        Ok(())
                    },
                    Err(e) => Err(e),
                }
            },
        }
    }
}

/// Every instruction that has an opcode has its bit index in range.
proof fn lemma_encoded_operands_valid(i: Instruction, prefixed: bool)
    requires
        encoding(i, prefixed) is Some,
    ensures
        operands_valid(i),
{
}

} // verus!
