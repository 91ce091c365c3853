use lr35902::cpu::instructions::{ADDHLTarget, ArithmeticTarget, Instruction};
use lr35902::cpu::Cpu;

#[test]
fn add_to_c() {
    let mut cpu = Cpu::new();
    cpu.registers.c = 0x04;
    cpu.registers.a = 0x02;
    cpu.execute(Instruction::ADD(ArithmeticTarget::C));
    assert_eq!(cpu.registers.a, 0x06);
    assert!(!cpu.registers.flag_c)
}

#[test]
fn add_set_carry() {
    let mut cpu = Cpu::new();
    cpu.registers.c = 0x04;
    cpu.registers.a = 0xFE;
    cpu.execute(Instruction::ADD(ArithmeticTarget::C));
    assert!(cpu.registers.flag_c);
    assert_eq!(cpu.registers.a, 0x02);
}

#[test]
fn sub_set_carry() {
    let mut cpu = Cpu::new();
    cpu.registers.c = 0x04;
    cpu.registers.a = 0x02;
    cpu.execute(Instruction::SUB(ArithmeticTarget::C));
    assert!(cpu.registers.flag_c);
    assert_eq!(cpu.registers.a, 0xFE);
}

#[test]
fn cp_set_carry() {
    let mut cpu = Cpu::new();
    cpu.registers.c = 0x04;
    cpu.registers.a = 0x02;
    cpu.execute(Instruction::CP(ArithmeticTarget::C));
    assert!(cpu.registers.flag_c);
    assert_eq!(cpu.registers.a, 0x02);
}

#[test]
fn and_a_b() {
    let mut cpu = Cpu::new();
    cpu.registers.a = 0b11100110;
    cpu.registers.b = 0b11101001;
    cpu.execute(Instruction::AND(ArithmeticTarget::B));
    assert_eq!(cpu.registers.a, 0b11100000);
}

#[test]
fn xor_a_b() {
    let mut cpu = Cpu::new();
    cpu.registers.a = 0b11100110;
    cpu.registers.b = 0b11101001;
    cpu.execute(Instruction::XOR(ArithmeticTarget::B));
    assert_eq!(cpu.registers.a, 0b00001111);
}

#[test]
fn add_hl_to_bc() {
    let mut cpu = Cpu::new();
    cpu.registers.set_hl(0x0004);
    cpu.registers.set_bc(0xFFFE);
    cpu.execute(Instruction::ADDHL(ADDHLTarget::BC));
    assert!(cpu.registers.flag_c);
    assert_eq!(cpu.registers.hl(), 0x0002);
}

#[test]
fn adc_uses_carry_in() {
    let mut cpu = Cpu::new();
    cpu.registers.a = 0x10;
    cpu.registers.b = 0x0F;
    cpu.registers.flag_c = true;
    cpu.execute(Instruction::ADC(ArithmeticTarget::B));
    assert_eq!(cpu.registers.a, 0x20);
    assert!(!cpu.registers.flag_c);
    assert!(cpu.registers.flag_h);
}

#[test]
fn sbc_uses_carry_in() {
    let mut cpu = Cpu::new();
    cpu.registers.a = 0x10;
    cpu.registers.b = 0x0F;
    cpu.registers.flag_c = true;
    cpu.execute(Instruction::SBC(ArithmeticTarget::B));
    assert_eq!(cpu.registers.a, 0x00);
    assert!(cpu.registers.flag_z);
    assert!(cpu.registers.flag_n);
    assert!(!cpu.registers.flag_c);
}

#[test]
fn or_clears_carry_and_half() {
    let mut cpu = Cpu::new();
    cpu.registers.a = 0x0F;
    cpu.registers.c = 0xF0;
    cpu.registers.flag_c = true;
    cpu.registers.flag_h = true;
    cpu.execute(Instruction::OR(ArithmeticTarget::C));
    assert_eq!(cpu.registers.a, 0xFF);
    assert!(!cpu.registers.flag_z);
    assert!(!cpu.registers.flag_n);
    assert!(!cpu.registers.flag_h);
    assert!(!cpu.registers.flag_c);
}

#[test]
fn and_sets_half_carry_flag() {
    let mut cpu = Cpu::new();
    cpu.registers.a = 0xF0;
    cpu.registers.b = 0x0F;
    cpu.execute(Instruction::AND(ArithmeticTarget::B));
    assert_eq!(cpu.registers.a, 0x00);
    assert!(cpu.registers.flag_z);
    assert!(cpu.registers.flag_h);
    assert!(!cpu.registers.flag_c);
}

#[test]
fn daa_after_bcd_addition() {
    // 0x19 + 0x28 = 0x41 in binary; DAA corrects it to the BCD sum 47.
    let mut cpu = Cpu::new();
    cpu.registers.a = 0x19;
    cpu.registers.b = 0x28;
    cpu.execute(Instruction::ADD(ArithmeticTarget::B));
    assert_eq!(cpu.registers.a, 0x41);
    assert!(cpu.registers.flag_h);
    cpu.execute(Instruction::DAA);
    assert_eq!(cpu.registers.a, 0x47);
    assert!(!cpu.registers.flag_h);
    assert!(!cpu.registers.flag_c);
}

#[test]
fn daa_after_bcd_subtraction() {
    // 0x41 - 0x19 = 0x28 in binary; DAA corrects it to the BCD result 22.
    let mut cpu = Cpu::new();
    cpu.registers.a = 0x41;
    cpu.registers.b = 0x19;
    cpu.execute(Instruction::SUB(ArithmeticTarget::B));
    assert_eq!(cpu.registers.a, 0x28);
    cpu.execute(Instruction::DAA);
    assert_eq!(cpu.registers.a, 0x22);
    assert!(cpu.registers.flag_n);
}

#[test]
fn inc_sp_adds_one() {
    let mut cpu = Cpu::new();
    cpu.registers.sp = 0x1234;
    let (_, cycles) = cpu.execute(Instruction::INC(
        lr35902::cpu::instructions::IncDecTarget::SP,
    ));
    assert_eq!(cpu.registers.sp, 0x1235);
    assert_eq!(cycles, 8);
}

#[test]
fn dec_sp_subtracts_one() {
    let mut cpu = Cpu::new();
    cpu.registers.sp = 0x0000;
    cpu.execute(Instruction::DEC(lr35902::cpu::instructions::IncDecTarget::SP));
    assert_eq!(cpu.registers.sp, 0xFFFF);
}

#[test]
fn inc_hli_touches_memory_and_flags() {
    let mut cpu = Cpu::new();
    cpu.registers.set_hl(0x8000);
    cpu.memory.write_byte(0x8000, 0x0F);
    let (_, cycles) = cpu.execute(Instruction::INC(
        lr35902::cpu::instructions::IncDecTarget::HLI,
    ));
    assert_eq!(cpu.memory.read_byte(0x8000), 0x10);
    assert!(cpu.registers.flag_h);
    assert!(!cpu.registers.flag_z);
    assert_eq!(cycles, 12);
}

#[test]
fn add_hl_leaves_zero_flag_alone() {
    let mut cpu = Cpu::new();
    cpu.registers.flag_z = true;
    cpu.registers.set_hl(0x0001);
    cpu.registers.set_bc(0x0001);
    cpu.execute(Instruction::ADDHL(ADDHLTarget::BC));
    assert_eq!(cpu.registers.hl(), 0x0002);
    assert!(cpu.registers.flag_z);
    assert!(!cpu.registers.flag_c);
}

#[test]
fn add_hl_half_carry_at_bit_eleven() {
    let mut cpu = Cpu::new();
    cpu.registers.set_hl(0x0FFF);
    cpu.registers.set_de(0x0001);
    cpu.execute(Instruction::ADDHL(ADDHLTarget::DE));
    assert_eq!(cpu.registers.hl(), 0x1000);
    assert!(cpu.registers.flag_h);
    assert!(!cpu.registers.flag_c);
}

#[test]
fn add_sp_signed_negative() {
    let mut cpu = Cpu::new();
    cpu.registers.sp = 0xFFF8;
    cpu.memory.write_byte(0x0100, 0xE8);
    cpu.memory.write_byte(0x0101, 0xFE); // -2
    let cycles = cpu.step();
    assert_eq!(cpu.registers.sp, 0xFFF6);
    assert_eq!(cycles, 16);
    assert!(!cpu.registers.flag_z);
    assert!(!cpu.registers.flag_n);
    assert_eq!(cpu.registers.pc, 0x0102);
}

#[test]
fn arith_cycles_for_hli_and_immediate_operands() {
    // ADD A,(HL): one byte, 8 cycles.
    let mut cpu = Cpu::new();
    cpu.registers.set_hl(0x9000);
    cpu.memory.write_byte(0x9000, 0x07);
    cpu.registers.a = 0x01;
    cpu.memory.write_byte(0x0100, 0x86);
    let cycles = cpu.step();
    assert_eq!(cpu.registers.a, 0x08);
    assert_eq!(cpu.registers.pc, 0x0101);
    assert_eq!(cycles, 8);

    // ADD A,d8: two bytes, 8 cycles.
    let mut cpu = Cpu::new();
    cpu.registers.a = 0x01;
    cpu.memory.write_byte(0x0100, 0xC6);
    cpu.memory.write_byte(0x0101, 0x41);
    let cycles = cpu.step();
    assert_eq!(cpu.registers.a, 0x42);
    assert_eq!(cpu.registers.pc, 0x0102);
    assert_eq!(cycles, 8);
}

#[test]
fn cpl_inverts_accumulator() {
    let mut cpu = Cpu::new();
    cpu.registers.a = 0x35;
    cpu.execute(Instruction::CPL);
    assert_eq!(cpu.registers.a, 0xCA);
    assert!(cpu.registers.flag_n);
    assert!(cpu.registers.flag_h);
}

#[test]
fn ccf_toggles_and_scf_sets_carry() {
    let mut cpu = Cpu::new();
    cpu.execute(Instruction::CCF);
    assert!(cpu.registers.flag_c);
    cpu.execute(Instruction::CCF);
    assert!(!cpu.registers.flag_c);
    cpu.execute(Instruction::SCF);
    assert!(cpu.registers.flag_c);
}

#[test]
fn rra_forces_zero_flag_off() {
    let mut cpu = Cpu::new();
    cpu.registers.a = 0x01;
    cpu.registers.flag_c = false;
    cpu.execute(Instruction::RRA);
    assert_eq!(cpu.registers.a, 0x00);
    assert!(!cpu.registers.flag_z);
    assert!(cpu.registers.flag_c);
}
