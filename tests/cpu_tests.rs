use gb_cpu::{
    AritLogiU8Cmd, BitCmd, BitInput, CompoundInputU8, CtrCmd, DoubleInputU8, ExecutionError,
    FlagRegister, Instruction, JmpCmd, JmpCmdCondition, RSCmd, RegisterU8, CPU,
};

fn flags(zero: bool, subtract: bool, half_carry: bool, carry: bool) -> FlagRegister {
    FlagRegister { zero, subtract, half_carry, carry }
}

fn machine_with(pc: u16, program: &[u8]) -> CPU {
    let mut cpu = CPU::new();
    cpu.pc = pc;
    for (i, b) in program.iter().enumerate() {
        cpu.bus.write_byte(pc.wrapping_add(i as u16), *b);
    }
    cpu
}

#[test]
fn add_0f_plus_01_sets_half_carry_only() {
    let mut cpu = CPU::new();
    cpu.registers.a = 0x0F;
    let r = cpu.add(0x01);
    assert_eq!(r, 0x10);
    assert_eq!(cpu.registers.f, flags(false, false, true, false));
}

#[test]
fn add_flags_exhaustive() {
    for a in 0u16..=255 {
        for v in 0u16..=255 {
            let mut cpu = CPU::new();
            cpu.registers.a = a as u8;
            let r = cpu.add(v as u8);
            assert_eq!(r as u16, (a + v) % 256);
            let f = cpu.registers.f;
            assert_eq!(f.zero, (a + v) % 256 == 0);
            assert!(!f.subtract);
            assert_eq!(f.half_carry, (a & 0xF) + (v & 0xF) > 0xF);
            assert_eq!(f.carry, a + v > 0xFF);
        }
    }
}

#[test]
fn sub_flags_exhaustive() {
    for a in 0u16..=255 {
        for v in 0u16..=255 {
            let mut cpu = CPU::new();
            cpu.registers.a = a as u8;
            let r = cpu.sub(v as u8);
            assert_eq!(r as u16, (a + 256 - v) % 256);
            let f = cpu.registers.f;
            assert_eq!(f.zero, a == v);
            assert!(f.subtract);
            assert_eq!(f.half_carry, (a & 0xF) >= (v & 0xF));
            assert_eq!(f.carry, a >= v);
        }
    }
}

#[test]
fn adc_and_sbc_fold_the_carry() {
    let mut cpu = CPU::new();
    cpu.registers.a = 0x0E;
    cpu.registers.f.carry = true;
    assert_eq!(cpu.adc(0x01), 0x10);
    assert_eq!(cpu.registers.f, flags(false, false, true, false));

    cpu.registers.a = 0x01;
    cpu.registers.f.carry = true;
    assert_eq!(cpu.adc(0xFF), 0x01);
    assert_eq!(cpu.registers.f, flags(false, false, false, true));

    cpu.registers.a = 0x10;
    cpu.registers.f.carry = true;
    assert_eq!(cpu.sbc(0x0F), 0x00);
    assert_eq!(cpu.registers.f, flags(true, true, false, true));

    cpu.registers.a = 0x00;
    cpu.registers.f.carry = true;
    assert_eq!(cpu.sbc(0x00), 0xFF);
    assert_eq!(cpu.registers.f, flags(false, true, true, false));

    // Half-carry compares the operand's nibble, before the carry is folded in.
    cpu.registers.a = 0x05;
    cpu.registers.f.carry = true;
    assert_eq!(cpu.sbc(0x05), 0xFF);
    assert_eq!(cpu.registers.f, flags(false, true, true, false));
}

#[test]
fn logic_ops_set_fixed_flags() {
    let mut cpu = CPU::new();
    cpu.registers.a = 0xF0;
    assert_eq!(cpu.and(0x0F), 0x00);
    assert_eq!(cpu.registers.f, flags(true, false, true, false));
    cpu.registers.a = 0xF0;
    assert_eq!(cpu.or(0x0F), 0xFF);
    assert_eq!(cpu.registers.f, flags(false, false, false, false));
    cpu.registers.a = 0xFF;
    assert_eq!(cpu.xor(0xFF), 0x00);
    assert_eq!(cpu.registers.f, flags(true, false, false, false));
}

#[test]
fn compare_sets_flags_and_keeps_a() {
    let mut cpu = CPU::new();
    cpu.registers.a = 0x42;
    cpu.cp(0x42);
    assert_eq!(cpu.registers.a, 0x42);
    assert_eq!(cpu.registers.f, flags(true, true, true, false));
    cpu.cp(0x50);
    assert_eq!(cpu.registers.f, flags(false, true, true, true));
    cpu.cp(0x0F);
    assert_eq!(cpu.registers.f, flags(false, true, false, false));
}

#[test]
fn inc_and_dec_keep_carry() {
    let mut cpu = machine_with(0, &[0x3C, 0x3D, 0x05]);
    cpu.registers.a = 0x0F;
    cpu.registers.f.carry = true;
    cpu.step().unwrap();
    assert_eq!(cpu.registers.a, 0x10);
    assert_eq!(cpu.registers.f, flags(false, false, true, true));
    cpu.step().unwrap();
    assert_eq!(cpu.registers.a, 0x0F);
    assert_eq!(cpu.registers.f, flags(false, true, false, true));
    cpu.registers.b = 0x01;
    cpu.step().unwrap();
    assert_eq!(cpu.registers.b, 0x00);
    assert_eq!(cpu.registers.f, flags(true, true, true, true));
    assert_eq!(cpu.pc, 3);
}

#[test]
fn add_hl_carries_out_of_bit_11_and_15() {
    let mut cpu = CPU::new();
    cpu.registers.set_hl(0x0FFF);
    assert_eq!(cpu.addhl(0x0001), 0x1000);
    assert_eq!(cpu.registers.f, flags(false, false, true, false));
    cpu.registers.set_hl(0xFFFF);
    assert_eq!(cpu.addhl(0x0001), 0x0000);
    assert_eq!(cpu.registers.f, flags(true, false, true, true));
}

#[test]
fn rotates_and_shifts_exact_values() {
    let mut cpu = CPU::new();
    assert_eq!(cpu.rlc(0x85), 0x0B);
    assert!(cpu.registers.f.carry);
    assert_eq!(cpu.rrc(0x01), 0x80);
    assert!(cpu.registers.f.carry);
    cpu.registers.f.carry = false;
    assert_eq!(cpu.rl(0x80), 0x00);
    assert_eq!(cpu.registers.f, flags(true, false, false, true));
    assert_eq!(cpu.rr(0x01), 0x80);
    assert_eq!(cpu.registers.f, flags(false, false, false, true));
    assert_eq!(cpu.sla(0xFF), 0xFE);
    assert!(cpu.registers.f.carry);
    assert_eq!(cpu.sra(0x81), 0xC0);
    assert!(cpu.registers.f.carry);
    assert_eq!(cpu.srl(0x81), 0x40);
    assert!(cpu.registers.f.carry);
    assert_eq!(cpu.swap(0xAB), 0xBA);
    assert!(!cpu.registers.f.carry);
    assert_eq!(cpu.swap(0x00), 0x00);
    assert_eq!(cpu.registers.f, flags(true, false, false, false));
}

#[test]
fn rotate_left_then_right_restores_every_byte() {
    let mut cpu = CPU::new();
    for v in 0u16..=255 {
        let v = v as u8;
        let left = cpu.rlc(v);
        cpu.registers.f.carry = false;
        assert_eq!(cpu.rrc(left), v);
    }
}

#[test]
fn res_and_set_change_one_bit() {
    let mut cpu = CPU::new();
    assert_eq!(cpu.res(7, 0xFF), 0x7F);
    assert_eq!(cpu.res(0, 0x00), 0x00);
    assert_eq!(cpu.set(3, 0x00), 0x08);
    assert_eq!(cpu.set(3, 0x08), 0x08);
}

#[test]
fn jump_relative_positive_displacement() {
    let mut cpu = machine_with(0x0100, &[0x18, 0x05]);
    cpu.step().unwrap();
    assert_eq!(cpu.pc, 0x0107);
}

#[test]
fn jump_relative_negative_displacement() {
    let mut cpu = machine_with(0x0100, &[0x18, 0xFB]);
    cpu.step().unwrap();
    assert_eq!(cpu.pc, 0x00FD);
}

#[test]
fn conditional_jump_not_taken() {
    let mut cpu = machine_with(0x0200, &[0xCA, 0x34, 0x12]);
    cpu.registers.f.zero = false;
    cpu.step().unwrap();
    assert_eq!(cpu.pc, 0x0203);
}

#[test]
fn conditional_jump_taken() {
    let mut cpu = machine_with(0x0200, &[0xCA, 0x34, 0x12]);
    cpu.registers.f.zero = true;
    cpu.step().unwrap();
    assert_eq!(cpu.pc, 0x1234);
}

#[test]
fn carry_conditions_follow_the_carry_flag() {
    let mut cpu = CPU::new();
    cpu.registers.f.carry = true;
    assert!(cpu.check_cond(JmpCmdCondition::C));
    assert!(!cpu.check_cond(JmpCmdCondition::NC));
    cpu.registers.f.carry = false;
    assert!(!cpu.check_cond(JmpCmdCondition::C));
    assert!(cpu.check_cond(JmpCmdCondition::NC));
}

#[test]
fn jump_through_hl() {
    let mut cpu = machine_with(0x0000, &[0xE9]);
    cpu.registers.set_hl(0xBEEF);
    cpu.step().unwrap();
    assert_eq!(cpu.pc, 0xBEEF);
}

#[test]
fn borrowed_byte_writes_through() {
    let mut cpu = CPU::new();
    *cpu.bus.borrow_byte_mut(0x1234) = 0x5A;
    assert_eq!(cpu.bus.read_byte(0x1234), 0x5A);
    assert_eq!(*cpu.bus.borrow_byte(0x1234), 0x5A);
    assert_eq!(cpu.bus.read_byte(0x1235), 0x00);
}

#[test]
fn bit_test_on_h() {
    let mut cpu = machine_with(0x0000, &[0xCB, 0x7C, 0xCB, 0x7C]);
    cpu.registers.h = 0x80;
    cpu.registers.f.carry = true;
    cpu.step().unwrap();
    assert!(!cpu.registers.f.zero);
    assert_eq!(cpu.pc, 2);
    cpu.registers.h = 0x00;
    cpu.step().unwrap();
    assert_eq!(cpu.registers.f, flags(true, false, true, true));
    assert_eq!(cpu.registers.h, 0x00);
    assert_eq!(cpu.pc, 4);
}

#[test]
fn loads_move_bytes() {
    // LD B,0x42 ; LD A,B ; LD (HL),A ; LD C,(HL)
    let mut cpu = machine_with(0x0000, &[0x06, 0x42, 0x78, 0x77, 0x4E]);
    cpu.registers.set_hl(0xC000);
    for _ in 0..4 {
        cpu.step().unwrap();
    }
    assert_eq!(cpu.registers.b, 0x42);
    assert_eq!(cpu.registers.a, 0x42);
    assert_eq!(cpu.bus.read_byte(0xC000), 0x42);
    assert_eq!(cpu.registers.c, 0x42);
    assert_eq!(cpu.pc, 5);
}

#[test]
fn io_port_loads() {
    // LDH (0x10),A ; LD A,(C) with C = 0x10
    let mut cpu = machine_with(0x0000, &[0xE0, 0x10, 0xF2]);
    cpu.registers.a = 0x99;
    cpu.step().unwrap();
    assert_eq!(cpu.bus.read_byte(0xFF10), 0x99);
    cpu.registers.a = 0;
    cpu.registers.c = 0x10;
    cpu.step().unwrap();
    assert_eq!(cpu.registers.a, 0x99);
    assert_eq!(cpu.pc, 3);
}

#[test]
fn immediate_operand_is_after_opcode() {
    // ADD A,0x05 ; LD A,(0xC001)
    let mut cpu = machine_with(0x0000, &[0xC6, 0x05, 0xFA, 0x01, 0xC0]);
    cpu.bus.write_byte(0xC001, 0x77);
    cpu.registers.a = 0x01;
    cpu.step().unwrap();
    assert_eq!(cpu.registers.a, 0x06);
    assert_eq!(cpu.pc, 2);
    cpu.step().unwrap();
    assert_eq!(cpu.registers.a, 0x77);
    assert_eq!(cpu.pc, 5);
}

#[test]
fn call_and_return_use_the_stack() {
    // CALL 0x0010 at 0x0000; RET at 0x0010
    let mut cpu = machine_with(0x0000, &[0xCD, 0x10, 0x00]);
    cpu.bus.write_byte(0x0010, 0xC9);
    cpu.sp = 0xFFFE;
    cpu.step().unwrap();
    assert_eq!(cpu.pc, 0x0010);
    assert_eq!(cpu.sp, 0xFFFC);
    assert_eq!(cpu.bus.read_byte(0xFFFC), 0x03);
    assert_eq!(cpu.bus.read_byte(0xFFFD), 0x00);
    cpu.step().unwrap();
    assert_eq!(cpu.pc, 0x0003);
    assert_eq!(cpu.sp, 0xFFFE);
}

#[test]
fn push_and_pop_round_trip() {
    // PUSH BC ; POP DE
    let mut cpu = machine_with(0x0000, &[0xC5, 0xD1]);
    cpu.sp = 0xD000;
    cpu.registers.set_bc(0xABCD);
    cpu.step().unwrap();
    cpu.step().unwrap();
    assert_eq!(cpu.registers.get_de(), 0xABCD);
    assert_eq!(cpu.sp, 0xD000);
}

#[test]
fn decode_failure_is_reported_and_changes_nothing() {
    let mut cpu = machine_with(0x0300, &[0xD3]);
    cpu.registers.a = 0x11;
    assert_eq!(cpu.step(), Err(ExecutionError::DecodeFailure(0xD3)));
    assert_eq!(cpu.pc, 0x0300);
    assert_eq!(cpu.registers.a, 0x11);
}

#[test]
fn unimplemented_operation_is_reported_and_changes_nothing() {
    let mut cpu = machine_with(0x0400, &[0x76]);
    assert_eq!(
        cpu.step(),
        Err(ExecutionError::UnimplementedOperation(Instruction::Control(CtrCmd::HALT)))
    );
    assert_eq!(cpu.pc, 0x0400);
    let mut cpu = CPU::new();
    assert_eq!(
        cpu.execute(Instruction::ArithmeticLogical8Bit(AritLogiU8Cmd::DAA)),
        Err(ExecutionError::UnimplementedOperation(Instruction::ArithmeticLogical8Bit(AritLogiU8Cmd::DAA)))
    );
}

#[test]
fn execute_returns_next_pc_without_committing() {
    let mut cpu = CPU::new();
    cpu.pc = 0x10;
    cpu.registers.a = 0x01;
    let next = cpu.execute(Instruction::ArithmeticLogical8Bit(AritLogiU8Cmd::ADD(
        CompoundInputU8::Register(RegisterU8::A),
    )));
    assert_eq!(next, Ok(0x11));
    assert_eq!(cpu.pc, 0x10);
    assert_eq!(cpu.registers.a, 0x02);
    let next = cpu.execute(Instruction::SingleBit(BitCmd::SET(BitInput(
        0,
        DoubleInputU8::Register(RegisterU8::A),
    ))));
    assert_eq!(next, Ok(0x12));
    assert_eq!(cpu.registers.a, 0x03);
    let next = cpu.execute(Instruction::RotateShift(RSCmd::RLCA));
    assert_eq!(next, Ok(0x11));
    assert_eq!(cpu.registers.a, 0x06);
}

#[test]
fn prefixed_rotate_through_hl_writes_memory() {
    // RLC (HL)
    let mut cpu = machine_with(0x0000, &[0xCB, 0x06]);
    cpu.registers.set_hl(0xC123);
    cpu.bus.write_byte(0xC123, 0x80);
    cpu.step().unwrap();
    assert_eq!(cpu.bus.read_byte(0xC123), 0x01);
    assert!(cpu.registers.f.carry);
    assert_eq!(cpu.pc, 2);
}

#[test]
fn complement_and_carry_flag_ops() {
    // CPL ; SCF ; CCF
    let mut cpu = machine_with(0x0000, &[0x2F, 0x37, 0x3F]);
    cpu.registers.a = 0x35;
    cpu.step().unwrap();
    assert_eq!(cpu.registers.a, 0xCA);
    assert!(cpu.registers.f.subtract && cpu.registers.f.half_carry);
    cpu.step().unwrap();
    assert_eq!(cpu.registers.f.carry, true);
    cpu.step().unwrap();
    assert_eq!(cpu.registers.f, flags(false, false, false, false));
}

#[test]
fn add_signed_displacement_to_sp() {
    // ADD SP,8 ; LD HL,SP-1
    let mut cpu = machine_with(0x0000, &[0xE8, 0x08, 0xF8, 0xFF]);
    cpu.sp = 0xFFF8;
    cpu.step().unwrap();
    assert_eq!(cpu.sp, 0x0000);
    assert_eq!(cpu.registers.f, flags(false, false, true, true));
    assert_eq!(cpu.pc, 2);
    cpu.step().unwrap();
    assert_eq!(cpu.registers.get_hl(), 0xFFFF);
    assert_eq!(cpu.sp, 0x0000);
    assert_eq!(cpu.registers.f, flags(false, false, false, false));
    assert_eq!(cpu.pc, 4);
}

#[test]
fn restart_pushes_the_next_address() {
    let mut cpu = machine_with(0x1234, &[0xEF]);
    cpu.sp = 0xFFFE;
    cpu.step().unwrap();
    assert_eq!(cpu.pc, 0x0028);
    assert_eq!(cpu.sp, 0xFFFC);
    assert_eq!(cpu.bus.read_byte(0xFFFD), 0x12);
    assert_eq!(cpu.bus.read_byte(0xFFFC), 0x35);
}

#[test]
fn conditional_call_and_return_not_taken() {
    // CALL NZ,0x4000 with zero set ; RET C with carry clear
    let mut cpu = machine_with(0x0100, &[0xC4, 0x00, 0x40, 0xD8]);
    cpu.sp = 0xFFFE;
    cpu.registers.f.zero = true;
    cpu.step().unwrap();
    assert_eq!(cpu.pc, 0x0103);
    assert_eq!(cpu.sp, 0xFFFE);
    cpu.step().unwrap();
    assert_eq!(cpu.pc, 0x0104);
    assert_eq!(cpu.sp, 0xFFFE);
}

#[test]
fn sixteen_bit_loads_and_steps() {
    // LD SP,0xC0DE ; LD (0xC100),SP ; INC BC ; DEC DE
    let mut cpu = machine_with(0x0000, &[0x31, 0xDE, 0xC0, 0x08, 0x00, 0xC1, 0x03, 0x1B]);
    cpu.registers.set_bc(0xFFFF);
    cpu.step().unwrap();
    assert_eq!(cpu.sp, 0xC0DE);
    cpu.step().unwrap();
    assert_eq!(cpu.bus.read_byte(0xC100), 0xDE);
    assert_eq!(cpu.bus.read_byte(0xC101), 0xC0);
    cpu.step().unwrap();
    assert_eq!(cpu.registers.get_bc(), 0x0000);
    cpu.step().unwrap();
    assert_eq!(cpu.registers.get_de(), 0xFFFF);
    assert_eq!(cpu.pc, 8);
}

#[test]
fn load_and_step_hl() {
    // LDI (HL),A ; LDD A,(HL)
    let mut cpu = machine_with(0x0000, &[0x22, 0x3A]);
    cpu.registers.set_hl(0xC000);
    cpu.registers.a = 0x42;
    cpu.bus.write_byte(0xC001, 0x24);
    cpu.step().unwrap();
    assert_eq!(cpu.bus.read_byte(0xC000), 0x42);
    assert_eq!(cpu.registers.get_hl(), 0xC001);
    cpu.step().unwrap();
    assert_eq!(cpu.registers.a, 0x24);
    assert_eq!(cpu.registers.get_hl(), 0xC000);
}

#[test]
fn relative_jump_wraps_and_conditions() {
    // JR +2 from 0xFFFE wraps to 0x0002; JR NC,-2 taken and not taken
    let mut cpu = machine_with(0xFFFE, &[0x18, 0x02]);
    cpu.step().unwrap();
    assert_eq!(cpu.pc, 0x0002);
    let mut cpu = machine_with(0x0010, &[0x30, 0xFE]);
    cpu.registers.f.carry = false;
    cpu.step().unwrap();
    assert_eq!(cpu.pc, 0x0010);
    cpu.registers.f.carry = true;
    cpu.step().unwrap();
    assert_eq!(cpu.pc, 0x0012);
}
