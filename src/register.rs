//! The register file: seven general 8-bit registers, the flag record, and the
//! 16-bit pair views built over them.
use vstd::prelude::*;

verus! {

/// Bit of the flag byte that holds the zero flag.
pub const ZERO_FLAG_MASK: u8 = 0x80;

/// Bit of the flag byte that holds the subtract flag.
pub const SUBTRACT_FLAG_MASK: u8 = 0x40;

/// Bit of the flag byte that holds the half-carry flag.
pub const HALF_CARRY_FLAG_MASK: u8 = 0x20;

/// Bit of the flag byte that holds the carry flag.
pub const CARRY_FLAG_MASK: u8 = 0x10;

/// The seven general 8-bit registers.
#[derive(Clone, Copy, Debug, PartialEq, Eq, Structural)]
pub enum RegisterU8 {
    A,
    B,
    C,
    D,
    E,
    H,
    L,
}

/// The 16-bit register views: the three general pairs, the stack pointer,
/// and the accumulator paired with the flag byte.
#[derive(Clone, Copy, Debug, PartialEq, Eq, Structural)]
pub enum RegisterU16 {
    BC,
    DE,
    HL,
    SP,
    AF,
}

/// The four status flags, packed into bits 7 to 4 of the flag byte.
#[derive(Clone, Copy, Debug, PartialEq, Eq, Structural)]
pub struct FlagRegister {
    pub zero: bool,
    pub subtract: bool,
    pub half_carry: bool,
    pub carry: bool,
}

/// The packed byte of a flag record; bits 3 to 0 are always clear.
pub open spec fn flags_to_byte(f: FlagRegister) -> u8 {
    (if f.zero { ZERO_FLAG_MASK } else { 0u8 }) | (if f.subtract { SUBTRACT_FLAG_MASK } else { 0u8 })
        | (if f.half_carry { HALF_CARRY_FLAG_MASK } else { 0u8 }) | (if f.carry {
        CARRY_FLAG_MASK
    } else {
        0u8
    })
}

/// The flag record held in bits 7 to 4 of a byte; bits 3 to 0 are ignored.
pub open spec fn byte_to_flags(b: u8) -> FlagRegister {
    FlagRegister {
        zero: b & ZERO_FLAG_MASK != 0,
        subtract: b & SUBTRACT_FLAG_MASK != 0,
        half_carry: b & HALF_CARRY_FLAG_MASK != 0,
        carry: b & CARRY_FLAG_MASK != 0,
    }
}

/// Packing then unpacking gives back any byte whose low nibble is clear.
pub proof fn lemma_flag_round_trip(x: u8)
    requires
        x & 0x0F == 0,
    ensures
        flags_to_byte(byte_to_flags(x)) == x,
{
    assert(x & 0x0F == 0 ==> ((if x & 0x80 != 0 { 0x80u8 } else { 0u8 }) | (if x & 0x40 != 0 {
        0x40u8
    } else {
        0u8
    }) | (if x & 0x20 != 0 { 0x20u8 } else { 0u8 }) | (if x & 0x10 != 0 { 0x10u8 } else { 0u8 }))
        == x) by (bit_vector);
}

/// Unpacking then packing gives back any flag record.
pub proof fn lemma_flag_byte_inverse(f: FlagRegister)
    ensures
        byte_to_flags(flags_to_byte(f)) == f,
        flags_to_byte(f) & 0x0F == 0,
{
    let (z, n, h, c) = (f.zero, f.subtract, f.half_carry, f.carry);
    let b = flags_to_byte(f);
    assert(b == (if z { 0x80u8 } else { 0u8 }) | (if n { 0x40u8 } else { 0u8 }) | (if h {
        0x20u8
    } else {
        0u8
    }) | (if c { 0x10u8 } else { 0u8 }));
    assert(b == (if z { 0x80u8 } else { 0u8 }) | (if n { 0x40u8 } else { 0u8 }) | (if h {
        0x20u8
    } else {
        0u8
    }) | (if c { 0x10u8 } else { 0u8 }) ==> (b & 0x80 != 0) == z && (b & 0x40 != 0) == n && (b
        & 0x20 != 0) == h && (b & 0x10 != 0) == c && b & 0x0F == 0) by (bit_vector);
}

impl From<FlagRegister> for u8 {
    fn from(value: FlagRegister) -> (r: u8)
        ensures
            r == flags_to_byte(value),
    {
        (if value.zero { ZERO_FLAG_MASK } else { 0u8 }) | (if value.subtract {
            SUBTRACT_FLAG_MASK
        } else {
            0u8
        }) | (if value.half_carry { HALF_CARRY_FLAG_MASK } else { 0u8 }) | (if value.carry {
            CARRY_FLAG_MASK
        } else {
            0u8
        })
    }
}

impl vstd::std_specs::convert::FromSpecImpl<FlagRegister> for u8 {
    open spec fn obeys_from_spec() -> bool {
        true
    }

    open spec fn from_spec(v: FlagRegister) -> u8 {
        flags_to_byte(v)
    }
}

impl From<u8> for FlagRegister {
    fn from(value: u8) -> (r: FlagRegister)
        ensures
            r == byte_to_flags(value),
    {
        FlagRegister {
            zero: value & ZERO_FLAG_MASK != 0,
            subtract: value & SUBTRACT_FLAG_MASK != 0,
            half_carry: value & HALF_CARRY_FLAG_MASK != 0,
            carry: value & CARRY_FLAG_MASK != 0,
        }
    }
}

impl vstd::std_specs::convert::FromSpecImpl<u8> for FlagRegister {
    open spec fn obeys_from_spec() -> bool {
        true
    }

    open spec fn from_spec(v: u8) -> FlagRegister {
        byte_to_flags(v)
    }
}


/// The 16-bit value whose high byte is `hi` and low byte is `lo`.
pub open spec fn join_bytes(hi: u8, lo: u8) -> u16 {
    ((hi as u16) << 8) | (lo as u16)
}

/// Bits 15 to 8 of a 16-bit value.
pub open spec fn high_byte(v: u16) -> u8 {
    (v >> 8) as u8
}

/// Bits 7 to 0 of a 16-bit value.
pub open spec fn low_byte(v: u16) -> u8 {
    (v & 0xFF) as u8
}

/// Splitting a joined pair gives back its halves.
pub proof fn lemma_join_split(hi: u8, lo: u8)
    ensures
        high_byte(join_bytes(hi, lo)) == hi,
        low_byte(join_bytes(hi, lo)) == lo,
        join_bytes(hi, lo) == hi as int * 256 + lo as int,
{
    assert(((((hi as u16) << 8) | (lo as u16)) >> 8) as u8 == hi && ((((hi as u16) << 8) | (
    lo as u16)) & 0xFF) as u8 == lo && ((hi as u16) << 8) | (lo as u16) == hi as int * 256
        + lo as int) by (bit_vector);
}

/// The register file. `F` is kept as a flag record; the pairs `AF`, `BC`,
/// `DE` and `HL` are views over the 8-bit cells, not separate storage.
#[derive(Clone, Copy, Debug, PartialEq, Eq, Structural)]
pub struct Registers {
    pub a: u8,
    pub b: u8,
    pub c: u8,
    pub d: u8,
    pub e: u8,
    pub h: u8,
    pub l: u8,
    pub f: FlagRegister,
}

impl Registers {
    /// The value held in a named 8-bit register.
    pub open spec fn spec_u8(self, r: RegisterU8) -> u8 {
        match r {
            RegisterU8::A => self.a,
            RegisterU8::B => self.b,
            RegisterU8::C => self.c,
            RegisterU8::D => self.d,
            RegisterU8::E => self.e,
            RegisterU8::H => self.h,
            RegisterU8::L => self.l,
        }
    }

    /// The register file with one named 8-bit register replaced.
    pub open spec fn with_u8(self, r: RegisterU8, v: u8) -> Registers {
        match r {
            RegisterU8::A => Registers { a: v, ..self },
            RegisterU8::B => Registers { b: v, ..self },
            RegisterU8::C => Registers { c: v, ..self },
            RegisterU8::D => Registers { d: v, ..self },
            RegisterU8::E => Registers { e: v, ..self },
            RegisterU8::H => Registers { h: v, ..self },
            RegisterU8::L => Registers { l: v, ..self },
        }
    }

    /// The high half of a pair view (`A` for `AF`); the stack pointer is not
    /// held in the register file and has no halves here.
    pub open spec fn pair_high(self, p: RegisterU16) -> u8 {
        match p {
            RegisterU16::AF => self.a,
            RegisterU16::BC => self.b,
            RegisterU16::DE => self.d,
            RegisterU16::HL => self.h,
            RegisterU16::SP => 0,
        }
    }

    /// The low half of a pair view (the packed flag byte for `AF`).
    pub open spec fn pair_low(self, p: RegisterU16) -> u8 {
        match p {
            RegisterU16::AF => flags_to_byte(self.f),
            RegisterU16::BC => self.c,
            RegisterU16::DE => self.e,
            RegisterU16::HL => self.l,
            RegisterU16::SP => 0,
        }
    }

    /// The 16-bit value of a pair view: high half first.
    pub open spec fn spec_pair(self, p: RegisterU16) -> u16 {
        join_bytes(self.pair_high(p), self.pair_low(p))
    }

    /// The register file after writing a 16-bit value through a pair view.
    pub open spec fn with_pair(self, p: RegisterU16, v: u16) -> Registers {
        match p {
            RegisterU16::AF => Registers { a: high_byte(v), f: byte_to_flags(low_byte(v)), ..self },
            RegisterU16::BC => Registers { b: high_byte(v), c: low_byte(v), ..self },
            RegisterU16::DE => Registers { d: high_byte(v), e: low_byte(v), ..self },
            RegisterU16::HL => Registers { h: high_byte(v), l: low_byte(v), ..self },
            RegisterU16::SP => self,
        }
    }

    /// Reads a named 8-bit register.
    pub fn get_u8(&self, r: RegisterU8) -> (v: u8)
        ensures
            v == self.spec_u8(r),
    {
        match r {
            RegisterU8::A => self.a,
            RegisterU8::B => self.b,
            RegisterU8::C => self.c,
            RegisterU8::D => self.d,
            RegisterU8::E => self.e,
            RegisterU8::H => self.h,
            RegisterU8::L => self.l,
        }
    }

    /// Writes a named 8-bit register, leaving the others as they were.
    pub fn set_u8(&mut self, r: RegisterU8, v: u8)
        ensures
            *final(self) == old(self).with_u8(r, v),
    {
        match r {
            RegisterU8::A => self.a = v,
            RegisterU8::B => self.b = v,
            RegisterU8::C => self.c = v,
            RegisterU8::D => self.d = v,
            RegisterU8::E => self.e = v,
            RegisterU8::H => self.h = v,
            RegisterU8::L => self.l = v,
        }
    }

    pub fn get_af(&self) -> (v: u16)
        ensures
            v == self.spec_pair(RegisterU16::AF),
    {
        (self.a as u16) << 8 | u8::from(self.f) as u16
    }

    pub fn set_af(&mut self, value: u16)
        ensures
            *final(self) == old(self).with_pair(RegisterU16::AF, value),
    {
        self.a = (value >> 8) as u8;
        self.f = FlagRegister::from((value & 0xFF) as u8);
    }

    pub fn get_bc(&self) -> (v: u16)
        ensures
            v == self.spec_pair(RegisterU16::BC),
    {
        (self.b as u16) << 8 | self.c as u16
    }

    pub fn set_bc(&mut self, value: u16)
        ensures
            *final(self) == old(self).with_pair(RegisterU16::BC, value),
    {
        self.b = (value >> 8) as u8;
        self.c = (value & 0xFF) as u8;
    }

    pub fn get_de(&self) -> (v: u16)
        ensures
            v == self.spec_pair(RegisterU16::DE),
    {
        (self.d as u16) << 8 | self.e as u16
    }

    pub fn set_de(&mut self, value: u16)
        ensures
            *final(self) == old(self).with_pair(RegisterU16::DE, value),
    {
        self.d = (value >> 8) as u8;
        self.e = (value & 0xFF) as u8;
    }

    pub fn get_hl(&self) -> (v: u16)
        ensures
            v == self.spec_pair(RegisterU16::HL),
    {
        (self.h as u16) << 8 | self.l as u16
    }

    pub fn set_hl(&mut self, value: u16)
        ensures
            *final(self) == old(self).with_pair(RegisterU16::HL, value),
    {
        self.h = (value >> 8) as u8;
        self.l = (value & 0xFF) as u8;
    }
}

/// Writing `(hi << 8) | lo` through a pair view leaves `hi` in its high half,
/// `lo` in its low half, and reads back as the same 16-bit value. For `AF` the
/// low half is the flag byte, whose bits 3 to 0 do not exist, so there `lo`
/// must have them clear.
pub proof fn lemma_pair_view(regs: Registers, p: RegisterU16, hi: u8, lo: u8)
    requires
        p != RegisterU16::SP,
        p == RegisterU16::AF ==> lo & 0x0F == 0,
    ensures
        regs.with_pair(p, join_bytes(hi, lo)).pair_high(p) == hi,
        regs.with_pair(p, join_bytes(hi, lo)).pair_low(p) == lo,
        regs.with_pair(p, join_bytes(hi, lo)).spec_pair(p) == join_bytes(hi, lo),
{
    lemma_join_split(hi, lo);
    if p == RegisterU16::AF {
        lemma_flag_round_trip(lo);
    }
}

} // verus!
