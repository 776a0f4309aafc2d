//! The executor's data: the memory bus, the machine state as values, and the
//! arithmetic, logic, operand, stack and jump helpers that execution uses.
use crate::alu::{
    alu_adc, alu_add, alu_add_sp, alu_addhl, alu_and, alu_bit, alu_cp, alu_dec, alu_inc, alu_or,
    alu_res, alu_rl, alu_rlc, alu_rr, alu_rrc, alu_sbc, alu_set, alu_sla, alu_sra, alu_srl,
    alu_sub, alu_swap, alu_xor, cond_holds, jr_target,
};
use crate::input::{CompoundInputU8, DoubleInputU8, JmpCmdCondition};
use crate::register::{join_bytes, FlagRegister, RegisterU16, RegisterU8, Registers};
use crate::semantics::{popped, push_word, top_word};
use vstd::prelude::*;

verus! {

/// Number of addressable bytes.
pub const MEMORY_SIZE: usize = 0x10000;

/// Byte-addressable store over the whole 16-bit address space.
pub struct MemoryBus {
    memory: [u8; 0x10000],
}

impl View for MemoryBus {
    type V = Seq<u8>;

    closed spec fn view(&self) -> Seq<u8> {
        self.memory@
    }
}

impl MemoryBus {
    /// A bus whose 65536 bytes are all zero.
    pub fn new() -> (m: Self)
        ensures
            m@ == Seq::new(MEMORY_SIZE as nat, |_i: int| 0u8),
    {
        let m = MemoryBus { memory: [0u8; 0x10000] };
        assert(m@ =~= Seq::new(MEMORY_SIZE as nat, |_i: int| 0u8));
        m
    }

    /// Every bus holds exactly one byte per 16-bit address.
    pub proof fn lemma_size(&self)
        ensures
            self@.len() == MEMORY_SIZE,
    {
    }

    /// Reads one byte; the bus holds exactly one byte per 16-bit address.
    pub fn read_byte(&self, address: u16) -> (v: u8)
        ensures
            v == self@[address as int],
            self@.len() == MEMORY_SIZE,
    {
        self.memory[address as usize]
    }

    pub fn borrow_byte(&self, address: u16) -> (v: &u8)
        ensures
            *v == self@[address as int],
            self@.len() == MEMORY_SIZE,
    {
        &self.memory[address as usize]
    }

    pub fn borrow_byte_mut(&mut self, address: u16) -> (v: &mut u8)
        ensures
            *v == old(self)@[address as int],
            final(self)@ == old(self)@.update(address as int, *final(v)),
            old(self)@.len() == MEMORY_SIZE,
            final(self)@.len() == MEMORY_SIZE,
    {
        &mut self.memory[address as usize]
    }

    pub fn write_byte(&mut self, address: u16, value: u8)
        ensures
            final(self)@ == old(self)@.update(address as int, value),
            old(self)@.len() == MEMORY_SIZE,
            final(self)@.len() == MEMORY_SIZE,
    {
        self.memory[address as usize] = value;
    }
}

/// What the executor state is, as values: the register file, the program
/// counter, the stack pointer and the 65536 bytes of memory.
pub struct CpuState {
    pub registers: Registers,
    pub pc: u16,
    pub sp: u16,
    pub memory: Seq<u8>,
}

impl CpuState {
    pub open spec fn read(self, address: u16) -> u8 {
        self.memory[address as int]
    }

    pub open spec fn write(self, address: u16, value: u8) -> CpuState {
        CpuState { memory: self.memory.update(address as int, value), ..self }
    }

    pub open spec fn with_registers(self, registers: Registers) -> CpuState {
        CpuState { registers, ..self }
    }

    pub open spec fn with_flags(self, f: FlagRegister) -> CpuState {
        CpuState { registers: Registers { f, ..self.registers }, ..self }
    }

    pub open spec fn with_reg(self, r: RegisterU8, v: u8) -> CpuState {
        CpuState { registers: self.registers.with_u8(r, v), ..self }
    }

    pub open spec fn with_a(self, v: u8) -> CpuState {
        self.with_reg(RegisterU8::A, v)
    }

    pub open spec fn with_sp(self, sp: u16) -> CpuState {
        CpuState { sp, ..self }
    }

    pub open spec fn with_pc(self, pc: u16) -> CpuState {
        CpuState { pc, ..self }
    }

    pub open spec fn hl(self) -> u16 {
        self.registers.spec_pair(RegisterU16::HL)
    }

    /// A 16-bit register: a pair view of the register file, or the stack
    /// pointer.
    pub open spec fn pair(self, p: RegisterU16) -> u16 {
        if p == RegisterU16::SP {
            self.sp
        } else {
            self.registers.spec_pair(p)
        }
    }

    pub open spec fn with_pair(self, p: RegisterU16, v: u16) -> CpuState {
        if p == RegisterU16::SP {
            self.with_sp(v)
        } else {
            self.with_registers(self.registers.with_pair(p, v))
        }
    }

    /// The byte after the opcode.
    pub open spec fn imm8(self) -> u8 {
        self.read(self.pc.wrapping_add(1))
    }

    /// The little-endian word after the opcode.
    pub open spec fn imm16(self) -> u16 {
        join_bytes(self.read(self.pc.wrapping_add(2)), self.read(self.pc.wrapping_add(1)))
    }

    /// The value of a register-or-`(HL)` operand.
    pub open spec fn operand(self, o: DoubleInputU8) -> u8 {
        match o {
            DoubleInputU8::Register(r) => self.registers.spec_u8(r),
            DoubleInputU8::Address => self.read(self.hl()),
        }
    }

    /// The state after writing a register-or-`(HL)` operand.
    pub open spec fn with_operand(self, o: DoubleInputU8, v: u8) -> CpuState {
        match o {
            DoubleInputU8::Register(r) => self.with_reg(r, v),
            DoubleInputU8::Address => self.write(self.hl(), v),
        }
    }

    /// The value of a register, `(HL)` or immediate operand.
    pub open spec fn compound(self, x: CompoundInputU8) -> u8 {
        match x {
            CompoundInputU8::Register(r) => self.registers.spec_u8(r),
            CompoundInputU8::Address => self.read(self.hl()),
            CompoundInputU8::Immediate => self.imm8(),
        }
    }
}

/// The executor: registers, program counter, stack pointer and the memory
/// bus it owns for the duration of a step.
pub struct CPU {
    pub registers: Registers,
    /// Program counter.
    pub pc: u16,
    /// Stack pointer.
    pub sp: u16,
    pub bus: MemoryBus,
}

impl View for CPU {
    type V = CpuState;

    open spec fn view(&self) -> CpuState {
        CpuState { registers: self.registers, pc: self.pc, sp: self.sp, memory: self.bus@ }
    }
}

impl CPU {
    /// A machine with every register, the program counter, the stack pointer
    /// and all of memory at zero.
    pub fn new() -> (c: Self)
        ensures
            c@ == (CpuState {
                registers: Registers {
                    a: 0,
                    b: 0,
                    c: 0,
                    d: 0,
                    e: 0,
                    h: 0,
                    l: 0,
                    f: FlagRegister { zero: false, subtract: false, half_carry: false, carry: false },
                },
                pc: 0,
                sp: 0,
                memory: Seq::new(MEMORY_SIZE as nat, |_i: int| 0u8),
            }),
    {
        CPU {
            registers: Registers {
                a: 0,
                b: 0,
                c: 0,
                d: 0,
                e: 0,
                h: 0,
                l: 0,
                f: FlagRegister { zero: false, subtract: false, half_carry: false, carry: false },
            },
            pc: 0,
            sp: 0,
            bus: MemoryBus::new(),
        }
    }
}

// The arithmetic, logic, rotate and bit helpers. Each reads its operand from
// the argument, returns the result, and writes the flags; nothing else moves.
impl CPU {
    pub fn add(&mut self, value: u8) -> (r: u8)
        ensures
            (r, final(self).registers.f) == alu_add(old(self).registers.a, value),
            final(self)@ == old(self)@.with_flags(final(self).registers.f),
    {
        let a = self.registers.a;
        let sum = a.wrapping_add(value);
        self.registers.f.zero = sum == 0;
        self.registers.f.subtract = false;
        self.registers.f.half_carry = ((a & 0xF) as u16) + ((value & 0xF) as u16) > 0xF;
        self.registers.f.carry = (a as u16) + (value as u16) > 0xFF;
        sum
    }

    pub fn adc(&mut self, value: u8) -> (r: u8)
        ensures
            (r, final(self).registers.f) == alu_adc(
                old(self).registers.a,
                value,
                old(self).registers.f.carry,
            ),
            final(self)@ == old(self)@.with_flags(final(self).registers.f),
    {
        let a = self.registers.a;
        let carry_in: u8 = if self.registers.f.carry { 1 } else { 0 };
        let folded = value.wrapping_add(carry_in);
        let sum = a.wrapping_add(folded);
        self.registers.f.zero = sum == 0;
        self.registers.f.subtract = false;
        self.registers.f.half_carry = ((a & 0xF) as u16) + ((folded & 0xF) as u16) > 0xF;
        self.registers.f.carry = (value as u16) + (carry_in as u16) > 0xFF || (a as u16) + (
        folded as u16) > 0xFF;
        sum
    }

    pub fn sub(&mut self, value: u8) -> (r: u8)
        ensures
            (r, final(self).registers.f) == alu_sub(old(self).registers.a, value),
            final(self)@ == old(self)@.with_flags(final(self).registers.f),
    {
        let a = self.registers.a;
        let diff = a.wrapping_sub(value);
        self.registers.f.zero = diff == 0;
        self.registers.f.subtract = true;
        self.registers.f.half_carry = (a & 0xF) >= (value & 0xF);
        self.registers.f.carry = a >= value;
        diff
    }

    pub fn sbc(&mut self, value: u8) -> (r: u8)
        ensures
            (r, final(self).registers.f) == alu_sbc(
                old(self).registers.a,
                value,
                old(self).registers.f.carry,
            ),
            final(self)@ == old(self)@.with_flags(final(self).registers.f),
    {
        let a = self.registers.a;
        let carry_in: u8 = if self.registers.f.carry { 1 } else { 0 };
        let folded = value.wrapping_add(carry_in);
        let diff = a.wrapping_sub(folded);
        self.registers.f.zero = diff == 0;
        self.registers.f.subtract = true;
        self.registers.f.half_carry = (a & 0xF) >= (value & 0xF);
        self.registers.f.carry = !((value as u16) + (carry_in as u16) > 0xFF || a < folded);
        diff
    }

    pub fn and(&mut self, value: u8) -> (r: u8)
        ensures
            (r, final(self).registers.f) == alu_and(old(self).registers.a, value),
            final(self)@ == old(self)@.with_flags(final(self).registers.f),
    {
        let res = self.registers.a & value;
        self.registers.f.zero = res == 0;
        self.registers.f.subtract = false;
        self.registers.f.half_carry = true;
        self.registers.f.carry = false;
        res
    }

    pub fn or(&mut self, value: u8) -> (r: u8)
        ensures
            (r, final(self).registers.f) == alu_or(old(self).registers.a, value),
            final(self)@ == old(self)@.with_flags(final(self).registers.f),
    {
        let res = self.registers.a | value;
        self.registers.f.zero = res == 0;
        self.registers.f.subtract = false;
        self.registers.f.half_carry = false;
        self.registers.f.carry = false;
        res
    }

    pub fn xor(&mut self, value: u8) -> (r: u8)
        ensures
            (r, final(self).registers.f) == alu_xor(old(self).registers.a, value),
            final(self)@ == old(self)@.with_flags(final(self).registers.f),
    {
        let res = self.registers.a ^ value;
        self.registers.f.zero = res == 0;
        self.registers.f.subtract = false;
        self.registers.f.half_carry = false;
        self.registers.f.carry = false;
        res
    }

    /// Compares `A` with `value`; only the flags change.
    pub fn cp(&mut self, value: u8)
        ensures
            final(self)@ == old(self)@.with_flags(alu_cp(old(self).registers.a, value)),
    {
        let a = self.registers.a;
        self.registers.f.zero = a == value;
        self.registers.f.subtract = true;
        self.registers.f.half_carry = (a & 0xF) >= (value & 0xF);
        self.registers.f.carry = a < value;
    }

    /// Sets the flags after an increment whose result is `value`; the carry
    /// flag is not affected.
    pub fn inc_flags(&mut self, value: u8)
        ensures
            final(self)@ == old(self)@.with_flags(
                alu_inc(value.wrapping_sub(1), old(self).registers.f).1,
            ),
    {
        self.registers.f.zero = value == 0;
        self.registers.f.subtract = false;
        self.registers.f.half_carry = (value & 0xF) == 0;
    }

    /// Sets the flags after a decrement whose result is `value`; the carry
    /// flag is not affected.
    pub fn dec_flags(&mut self, value: u8)
        ensures
            final(self)@ == old(self)@.with_flags(
                alu_dec(value.wrapping_add(1), old(self).registers.f).1,
            ),
    {
        self.registers.f.zero = value == 0;
        self.registers.f.subtract = true;
        self.registers.f.half_carry = (value.wrapping_add(1) & 0xF) > 0;
    }

    /// `HL + value`, 16 bits wide; the caller stores the sum.
    pub fn addhl(&mut self, value: u16) -> (r: u16)
        ensures
            (r, final(self).registers.f) == alu_addhl(
                old(self).registers.spec_pair(RegisterU16::HL),
                value,
            ),
            final(self)@ == old(self)@.with_flags(final(self).registers.f),
    {
        let hl = self.registers.get_hl();
        let sum = hl.wrapping_add(value);
        self.registers.f.zero = sum == 0;
        self.registers.f.subtract = false;
        self.registers.f.half_carry = ((hl & 0x0FFF) as u32) + ((value & 0x0FFF) as u32) > 0x0FFF;
        self.registers.f.carry = (hl as u32) + (value as u32) > 0xFFFF;
        sum
    }

    /// `SP` plus the signed displacement `d`; the caller stores the sum.
    pub fn add_sp(&mut self, d: u8) -> (r: u16)
        ensures
            (r, final(self).registers.f) == alu_add_sp(old(self).sp, d),
            final(self)@ == old(self)@.with_flags(final(self).registers.f),
    {
        let sp = self.sp;
        let sum = if d < 0x80 {
            sp.wrapping_add(d as u16)
        } else {
            sp.wrapping_sub(0x100 - d as u16)
        };
        self.registers.f = FlagRegister {
            zero: false,
            subtract: false,
            half_carry: ((sp & 0xF) as u32) + ((d & 0xF) as u32) > 0xF,
            carry: ((sp & 0xFF) as u32) + (d as u32) > 0xFF,
        };
        sum
    }

    /// Tests bit `bit` of `value`: zero is set when the bit is clear.
    pub fn bit(&mut self, bit: u8, value: u8)
        requires
            bit < 8,
        ensures
            final(self)@ == old(self)@.with_flags(alu_bit(bit, value, old(self).registers.f)),
    {
        self.registers.f.zero = value & (1u8 << bit) == 0;
        self.registers.f.subtract = false;
        self.registers.f.half_carry = true;
    }

    /// `value` with bit `bit` cleared; no flag changes.
    pub fn res(&mut self, bit: u8, value: u8) -> (r: u8)
        requires
            bit < 8,
        ensures
            r == alu_res(bit, value),
            final(self)@ == old(self)@,
    {
        value & !(1u8 << bit)
    }

    /// `value` with bit `bit` set; no flag changes.
    pub fn set(&mut self, bit: u8, value: u8) -> (r: u8)
        requires
            bit < 8,
        ensures
            r == alu_set(bit, value),
            final(self)@ == old(self)@,
    {
        value | (1u8 << bit)
    }

    /// Shift right, zero fill.
    pub fn srl(&mut self, value: u8) -> (r: u8)
        ensures
            (r, final(self).registers.f) == alu_srl(value),
            final(self)@ == old(self)@.with_flags(final(self).registers.f),
    {
        let res = value >> 1;
        self.set_shift_flags(res, value & 1 == 1);
        res
    }

    /// Rotate right through the carry flag.
    pub fn rr(&mut self, value: u8) -> (r: u8)
        ensures
            (r, final(self).registers.f) == alu_rr(value, old(self).registers.f.carry),
            final(self)@ == old(self)@.with_flags(final(self).registers.f),
    {
        let carry_in: u8 = if self.registers.f.carry { 0x80 } else { 0 };
        let res = (value >> 1) | carry_in;
        self.set_shift_flags(res, value & 1 == 1);
        res
    }

    /// Rotate left through the carry flag.
    pub fn rl(&mut self, value: u8) -> (r: u8)
        ensures
            (r, final(self).registers.f) == alu_rl(value, old(self).registers.f.carry),
            final(self)@ == old(self)@.with_flags(final(self).registers.f),
    {
        let carry_in: u8 = if self.registers.f.carry { 1 } else { 0 };
        let res = (value << 1) | carry_in;
        self.set_shift_flags(res, value & 0x80 != 0);
        res
    }

    /// Rotate right; bit 0 comes back in at bit 7.
    pub fn rrc(&mut self, value: u8) -> (r: u8)
        ensures
            (r, final(self).registers.f) == alu_rrc(value),
            final(self)@ == old(self)@.with_flags(final(self).registers.f),
    {
        let res = (value >> 1) | (value << 7);
        self.set_shift_flags(res, value & 1 == 1);
        res
    }

    /// Rotate left; bit 7 comes back in at bit 0.
    pub fn rlc(&mut self, value: u8) -> (r: u8)
        ensures
            (r, final(self).registers.f) == alu_rlc(value),
            final(self)@ == old(self)@.with_flags(final(self).registers.f),
    {
        let res = (value << 1) | (value >> 7);
        self.set_shift_flags(res, value & 0x80 != 0);
        res
    }

    /// Shift right, bit 7 kept.
    pub fn sra(&mut self, value: u8) -> (r: u8)
        ensures
            (r, final(self).registers.f) == alu_sra(value),
            final(self)@ == old(self)@.with_flags(final(self).registers.f),
    {
        let res = (value >> 1) | (value & 0x80);
        self.set_shift_flags(res, value & 1 == 1);
        res
    }

    /// Shift left, zero fill.
    pub fn sla(&mut self, value: u8) -> (r: u8)
        ensures
            (r, final(self).registers.f) == alu_sla(value),
            final(self)@ == old(self)@.with_flags(final(self).registers.f),
    {
        let res = value << 1;
        self.set_shift_flags(res, value & 0x80 != 0);
        res
    }

    /// Exchange the nibbles.
    pub fn swap(&mut self, value: u8) -> (r: u8)
        ensures
            (r, final(self).registers.f) == alu_swap(value),
            final(self)@ == old(self)@.with_flags(final(self).registers.f),
    {
        let res = (value >> 4) | (value << 4);
        self.set_shift_flags(res, false);
        res
    }

    /// The flags every rotate and shift leaves: zero from the result,
    /// subtract and half-carry clear, carry the bit shifted out.
    fn set_shift_flags(&mut self, res: u8, carry: bool)
        ensures
            final(self)@ == old(self)@.with_flags(
                FlagRegister { zero: res == 0, subtract: false, half_carry: false, carry },
            ),
    {
        self.registers.f = FlagRegister { zero: res == 0, subtract: false, half_carry: false, carry };
    }
}


// Operand access, stack and jump helpers.
impl CPU {
    /// Reads the byte immediately after the opcode.
    pub fn read_immediate_u8(&self) -> (r: u8)
        ensures
            r == self@.imm8(),
    {
        self.bus.read_byte(self.pc.wrapping_add(1))
    }

    /// Reads the two bytes after the opcode as a little-endian word.
    pub fn read_immediate_u16(&self) -> (r: u16)
        ensures
            r == self@.imm16(),
    {
        let lo = self.bus.read_byte(self.pc.wrapping_add(1));
        let hi = self.bus.read_byte(self.pc.wrapping_add(2));
        (hi as u16) << 8 | lo as u16
    }

    /// Reads a 16-bit register: a pair view, or the stack pointer.
    pub fn get_pair(&self, p: RegisterU16) -> (r: u16)
        ensures
            r == self@.pair(p),
    {
        match p {
            RegisterU16::AF => self.registers.get_af(),
            RegisterU16::BC => self.registers.get_bc(),
            RegisterU16::DE => self.registers.get_de(),
            RegisterU16::HL => self.registers.get_hl(),
            RegisterU16::SP => self.sp,
        }
    }

    /// Writes a 16-bit register: a pair view, or the stack pointer.
    pub fn set_pair(&mut self, p: RegisterU16, v: u16)
        ensures
            final(self)@ == old(self)@.with_pair(p, v),
    {
        match p {
            RegisterU16::AF => self.registers.set_af(v),
            RegisterU16::BC => self.registers.set_bc(v),
            RegisterU16::DE => self.registers.set_de(v),
            RegisterU16::HL => self.registers.set_hl(v),
            RegisterU16::SP => self.sp = v,
        }
    }

    /// Reads a register-or-`(HL)` operand.
    pub fn read_operand(&self, o: DoubleInputU8) -> (r: u8)
        ensures
            r == self@.operand(o),
    {
        match o {
            DoubleInputU8::Register(r) => self.registers.get_u8(r),
            DoubleInputU8::Address => self.bus.read_byte(self.registers.get_hl()),
        }
    }

    /// Writes a register-or-`(HL)` operand.
    pub fn write_operand(&mut self, o: DoubleInputU8, v: u8)
        ensures
            final(self)@ == old(self)@.with_operand(o, v),
    {
        match o {
            DoubleInputU8::Register(r) => self.registers.set_u8(r, v),
            DoubleInputU8::Address => {
                let at = self.registers.get_hl();
                self.bus.write_byte(at, v);
            },
        }
    }

    /// Reads a register, `(HL)` or immediate operand.
    pub fn read_compound(&self, x: CompoundInputU8) -> (r: u8)
        ensures
            r == self@.compound(x),
    {
        match x {
            CompoundInputU8::Register(r) => self.registers.get_u8(r),
            CompoundInputU8::Address => self.bus.read_byte(self.registers.get_hl()),
            CompoundInputU8::Immediate => self.read_immediate_u8(),
        }
    }

    /// Pushes a word onto the stack, high byte first.
    pub fn push_word(&mut self, v: u16)
        ensures
            final(self)@ == push_word(old(self)@, v),
    {
        let hi_at = self.sp.wrapping_sub(1);
        let lo_at = hi_at.wrapping_sub(1);
        self.bus.write_byte(hi_at, (v >> 8) as u8);
        self.bus.write_byte(lo_at, (v & 0xFF) as u8);
        self.sp = lo_at;
    }

    /// Pops the word on top of the stack.
    pub fn pop_word(&mut self) -> (r: u16)
        ensures
            r == top_word(old(self)@),
            final(self)@ == popped(old(self)@),
    {
        let lo = self.bus.read_byte(self.sp);
        let hi = self.bus.read_byte(self.sp.wrapping_add(1));
        self.sp = self.sp.wrapping_add(2);
        (hi as u16) << 8 | lo as u16
    }

    /// Whether a jump condition holds under the current flags.
    pub fn check_cond(&self, cond: JmpCmdCondition) -> (r: bool)
        ensures
            r == cond_holds(self.registers.f, cond),
    {
        match cond {
            JmpCmdCondition::NZ => !self.registers.f.zero,
            JmpCmdCondition::Z => self.registers.f.zero,
            JmpCmdCondition::NC => !self.registers.f.carry,
            JmpCmdCondition::C => self.registers.f.carry,
        }
    }

    /// Next program counter of a three-byte absolute jump: the address after
    /// the opcode when taken, the next instruction otherwise.
    pub fn jump(&mut self, should_jump: bool) -> (r: u16)
        ensures
            r == if should_jump {
                old(self)@.imm16()
            } else {
                old(self).pc.wrapping_add(3)
            },
            final(self)@ == old(self)@,
    {
        if should_jump {
            self.read_immediate_u16()
        } else {
            self.pc.wrapping_add(3)
        }
    }

    /// Next program counter of a two-byte relative jump: the signed
    /// displacement after the opcode added to the address after the
    /// instruction when taken, that address otherwise.
    pub fn jump_relative(&mut self, should_jump: bool) -> (r: u16)
        ensures
            r == if should_jump {
                jr_target(old(self).pc, old(self)@.imm8())
            } else {
                old(self).pc.wrapping_add(2)
            },
            final(self)@ == old(self)@,
    {
        let next = self.pc.wrapping_add(2);
        if should_jump {
            let offset = self.read_immediate_u8();
            if offset < 0x80 {
                next.wrapping_add(offset as u16)
            } else {
                next.wrapping_sub(0x100 - offset as u16)
            }
        } else {
            next
        }
    }
}

} // verus!
