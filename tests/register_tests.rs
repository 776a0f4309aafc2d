use gb_cpu::{FlagRegister, RegisterU16, Registers, CPU};

fn sample_registers() -> Registers {
    Registers {
        a: 1,
        b: 2,
        c: 3,
        d: 4,
        e: 5,
        f: FlagRegister { zero: false, subtract: true, half_carry: true, carry: false },
        h: 7,
        l: 8,
    }
}

#[test]
fn flag_register_conversion() {
    let before = FlagRegister { zero: false, subtract: true, half_carry: true, carry: true };

    let converted = u8::from(before);
    assert_eq!(0b0111_0000, converted);

    let back = FlagRegister::from(converted);
    assert_eq!(format!("{:?}", before), format!("{:?}", back));
}

#[test]
fn two_byte_set_and_get_af() {
    let mut reg = sample_registers();

    assert_eq!(0b0000_0001_0110_0000, reg.get_af());
    reg.set_af(0xFFF0);
    assert_eq!(0xFFF0, reg.get_af());
}

#[test]
fn two_byte_set_and_get_bc() {
    let mut reg = sample_registers();

    assert_eq!(0b0000_0010_0000_0011, reg.get_bc());
    reg.set_bc(0xFF12);
    assert_eq!(0xFF12, reg.get_bc());
}

#[test]
fn two_byte_set_and_get_de() {
    let mut reg = sample_registers();

    assert_eq!(0b0000_0100_0000_0101, reg.get_de());
    reg.set_de(0x31FF);
    assert_eq!(0x31FF, reg.get_de());
}

#[test]
fn two_byte_set_and_get_hl() {
    let mut reg = sample_registers();

    assert_eq!(0b0000_0111_0000_1000, reg.get_hl());
    reg.set_hl(0x0AF7);
    assert_eq!(0x0AF7, reg.get_hl());
}

#[test]
fn alignment_and_padding_of_registers() {
    assert_eq!(std::mem::size_of::<Registers>(), 11);
    assert_eq!(std::mem::align_of::<Registers>(), 1);
}

#[test]
fn flag_byte_round_trips_for_every_high_nibble() {
    for hi in 0u8..16 {
        let x = hi << 4;
        assert_eq!(u8::from(FlagRegister::from(x)), x);
    }
}

#[test]
fn flag_byte_ignores_low_nibble() {
    let f = FlagRegister::from(0xAF);
    assert_eq!(f, FlagRegister { zero: true, subtract: false, half_carry: true, carry: false });
    assert_eq!(u8::from(f), 0xA0);
}

#[test]
fn pair_writes_land_in_both_halves() {
    let mut reg = sample_registers();
    reg.set_bc(0x1234);
    assert_eq!((reg.b, reg.c), (0x12, 0x34));
    reg.set_de(0xABCD);
    assert_eq!((reg.d, reg.e), (0xAB, 0xCD));
    reg.set_hl(0x00FF);
    assert_eq!((reg.h, reg.l), (0x00, 0xFF));
    reg.set_af(0x5AB0);
    assert_eq!(reg.a, 0x5A);
    assert_eq!(reg.f, FlagRegister { zero: true, subtract: false, half_carry: true, carry: true });
    // The other registers are untouched.
    assert_eq!(reg.b, 0x12);
    assert_eq!(reg.l, 0xFF);
}

#[test]
fn pair_view_round_trips_on_samples() {
    for &(hi, lo) in &[(0u8, 0u8), (0xFF, 0xFF), (0x12, 0x34), (0x80, 0x01)] {
        let v = (hi as u16) << 8 | lo as u16;
        let mut reg = sample_registers();
        reg.set_bc(v);
        assert_eq!((reg.b, reg.c, reg.get_bc()), (hi, lo, v));
        reg.set_de(v);
        assert_eq!((reg.d, reg.e, reg.get_de()), (hi, lo, v));
        reg.set_hl(v);
        assert_eq!((reg.h, reg.l, reg.get_hl()), (hi, lo, v));
        let v_af = v & 0xFFF0;
        reg.set_af(v_af);
        assert_eq!((reg.a, u8::from(reg.f), reg.get_af()), (hi, lo & 0xF0, v_af));
    }
}

#[test]
fn af_drops_the_low_nibble() {
    let mut reg = sample_registers();
    reg.set_af(0x12FF);
    assert_eq!(reg.get_af(), 0x12F0);
}

#[test]
fn stack_pointer_is_a_pair_of_the_machine() {
    let mut cpu = CPU::new();
    cpu.set_pair(RegisterU16::SP, 0xFFFE);
    assert_eq!(cpu.sp, 0xFFFE);
    assert_eq!(cpu.get_pair(RegisterU16::SP), 0xFFFE);
    cpu.set_pair(RegisterU16::HL, 0xC000);
    assert_eq!(cpu.get_pair(RegisterU16::HL), 0xC000);
    assert_eq!(cpu.sp, 0xFFFE);
}
