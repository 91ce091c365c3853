//! End-to-end scenarios: a freshly constructed CPU, a few bytes written at
//! PC = 0x0100, then `step`.

use lr35902::cpu::Cpu;

#[test]
fn add_a_c_with_overflow() {
    let mut cpu = Cpu::new();
    cpu.registers.a = 0xFE;
    cpu.registers.c = 0x04;
    cpu.memory.write_byte(0x0100, 0x81);
    let cycles = cpu.step();
    assert_eq!(cpu.registers.a, 0x02);
    assert!(cpu.registers.flag_c);
    assert!(!cpu.registers.flag_z);
    assert!(!cpu.registers.flag_n);
    assert!(cpu.registers.flag_h);
    assert_eq!(cpu.registers.pc, 0x0101);
    assert_eq!(cycles, 4);
}

#[test]
fn sub_b_producing_underflow() {
    let mut cpu = Cpu::new();
    cpu.registers.a = 0x02;
    cpu.registers.b = 0x04;
    cpu.memory.write_byte(0x0100, 0x90);
    let cycles = cpu.step();
    assert_eq!(cpu.registers.a, 0xFE);
    assert!(cpu.registers.flag_c);
    assert!(cpu.registers.flag_n);
    assert!(cpu.registers.flag_h);
    assert!(!cpu.registers.flag_z);
    assert_eq!(cpu.registers.pc, 0x0101);
    assert_eq!(cycles, 4);
}

#[test]
fn jr_nz_taken() {
    let mut cpu = Cpu::new();
    cpu.registers.flag_z = false;
    cpu.memory.write_byte(0x0100, 0x20);
    cpu.memory.write_byte(0x0101, 0x05);
    let cycles = cpu.step();
    assert_eq!(cpu.registers.pc, 0x0107);
    assert_eq!(cycles, 12);
}

#[test]
fn jr_nz_not_taken() {
    let mut cpu = Cpu::new();
    cpu.registers.flag_z = true;
    cpu.memory.write_byte(0x0100, 0x20);
    cpu.memory.write_byte(0x0101, 0x05);
    let cycles = cpu.step();
    assert_eq!(cpu.registers.pc, 0x0102);
    assert_eq!(cycles, 8);
}

#[test]
fn call_then_ret() {
    let mut cpu = Cpu::new();
    cpu.memory.write_byte(0x0100, 0xCD);
    cpu.memory.write_byte(0x0101, 0x34);
    cpu.memory.write_byte(0x0102, 0x12);
    cpu.memory.write_byte(0x1234, 0xC9);
    let cycles = cpu.step();
    assert_eq!(cpu.registers.pc, 0x1234);
    assert_eq!(cpu.registers.sp, 0xFFFC);
    assert_eq!(cpu.memory.read_byte(0xFFFC), 0x03);
    assert_eq!(cpu.memory.read_byte(0xFFFD), 0x01);
    assert_eq!(cycles, 24);
    let cycles = cpu.step();
    assert_eq!(cpu.registers.pc, 0x0103);
    assert_eq!(cpu.registers.sp, 0xFFFE);
    assert_eq!(cycles, 16);
}

#[test]
fn push_pop_af_round_trip() {
    let mut cpu = Cpu::new();
    cpu.registers.a = 0xAB;
    cpu.registers.flag_z = true;
    cpu.registers.flag_n = false;
    cpu.registers.flag_h = true;
    cpu.registers.flag_c = false;
    assert_eq!(cpu.registers.f(), 0xA0);
    cpu.memory.write_byte(0x0100, 0xF5);
    cpu.memory.write_byte(0x0101, 0xF1);
    cpu.step();
    cpu.step();
    assert_eq!(cpu.registers.a, 0xAB);
    assert!(cpu.registers.flag_z);
    assert!(!cpu.registers.flag_n);
    assert!(cpu.registers.flag_h);
    assert!(!cpu.registers.flag_c);
    assert_eq!(cpu.registers.sp, 0xFFFE);
}

#[test]
fn cb_prefixed_swap_b() {
    let mut cpu = Cpu::new();
    cpu.registers.b = 0x3C;
    cpu.memory.write_byte(0x0100, 0xCB);
    cpu.memory.write_byte(0x0101, 0x30);
    let cycles = cpu.step();
    assert_eq!(cpu.registers.b, 0xC3);
    assert!(!cpu.registers.flag_z);
    assert!(!cpu.registers.flag_n);
    assert!(!cpu.registers.flag_h);
    assert!(!cpu.registers.flag_c);
    assert_eq!(cpu.registers.pc, 0x0102);
    assert_eq!(cycles, 8);
}

#[test]
fn bit_7_h_with_high_bit_set() {
    let mut cpu = Cpu::new();
    cpu.registers.h = 0x80;
    cpu.registers.flag_c = true;
    cpu.memory.write_byte(0x0100, 0xCB);
    cpu.memory.write_byte(0x0101, 0x7C);
    let cycles = cpu.step();
    assert!(!cpu.registers.flag_z);
    assert!(!cpu.registers.flag_n);
    assert!(cpu.registers.flag_h);
    assert!(cpu.registers.flag_c);
    assert_eq!(cpu.registers.pc, 0x0102);
    assert_eq!(cycles, 8);
}

#[test]
fn jp_always_and_jp_not_taken() {
    let mut cpu = Cpu::new();
    cpu.memory.write_byte(0x0100, 0xC3);
    cpu.memory.write_byte(0x0101, 0x00);
    cpu.memory.write_byte(0x0102, 0x20);
    let cycles = cpu.step();
    assert_eq!(cpu.registers.pc, 0x2000);
    assert_eq!(cycles, 16);

    let mut cpu = Cpu::new();
    cpu.registers.flag_z = false;
    cpu.memory.write_byte(0x0100, 0xCA); // JP Z,a16
    let cycles = cpu.step();
    assert_eq!(cpu.registers.pc, 0x0103);
    assert_eq!(cycles, 12);
}

#[test]
fn rst_pushes_and_jumps_to_vector() {
    let mut cpu = Cpu::new();
    cpu.memory.write_byte(0x0100, 0xEF); // RST 28
    let cycles = cpu.step();
    assert_eq!(cpu.registers.pc, 0x0028);
    assert_eq!(cpu.registers.sp, 0xFFFC);
    assert_eq!(cpu.memory.read_byte(0xFFFC), 0x01);
    assert_eq!(cpu.memory.read_byte(0xFFFD), 0x01);
    assert_eq!(cycles, 16);
}

#[test]
fn conditional_ret_cycle_counts() {
    // RET NZ taken: 20 cycles.
    let mut cpu = Cpu::new();
    cpu.registers.sp = 0xFFFC;
    cpu.memory.write_byte(0xFFFC, 0x34);
    cpu.memory.write_byte(0xFFFD, 0x12);
    cpu.memory.write_byte(0x0100, 0xC0);
    let cycles = cpu.step();
    assert_eq!(cpu.registers.pc, 0x1234);
    assert_eq!(cpu.registers.sp, 0xFFFE);
    assert_eq!(cycles, 20);

    // RET NZ not taken: 8 cycles.
    let mut cpu = Cpu::new();
    cpu.registers.flag_z = true;
    cpu.memory.write_byte(0x0100, 0xC0);
    let cycles = cpu.step();
    assert_eq!(cpu.registers.pc, 0x0101);
    assert_eq!(cycles, 8);
}

#[test]
fn reti_enables_interrupts_and_returns() {
    let mut cpu = Cpu::new();
    cpu.registers.sp = 0xFFFC;
    cpu.memory.write_byte(0xFFFC, 0x00);
    cpu.memory.write_byte(0xFFFD, 0x80);
    cpu.memory.write_byte(0x0100, 0xD9);
    let cycles = cpu.step();
    assert_eq!(cpu.registers.pc, 0x8000);
    assert_eq!(cpu.registers.sp, 0xFFFE);
    assert!(cpu.interrupts_enabled);
    assert_eq!(cycles, 16);
}

#[test]
fn halt_di_ei_mode_bits() {
    let mut cpu = Cpu::new();
    cpu.memory.write_byte(0x0100, 0xFB); // EI
    cpu.memory.write_byte(0x0101, 0xF3); // DI
    cpu.memory.write_byte(0x0102, 0x76); // HALT
    cpu.step();
    assert!(cpu.interrupts_enabled);
    cpu.step();
    assert!(!cpu.interrupts_enabled);
    let cycles = cpu.step();
    assert!(cpu.is_halted);
    assert_eq!(cpu.registers.pc, 0x0103);
    assert_eq!(cycles, 4);
}

#[test]
fn ld_variants_move_bytes_and_words() {
    // LD B,d8 then LD (HL),B then LD A,(HL).
    let mut cpu = Cpu::new();
    cpu.registers.set_hl(0x9000);
    cpu.memory.write_byte(0x0100, 0x06); // LD B,d8
    cpu.memory.write_byte(0x0101, 0x5A);
    cpu.memory.write_byte(0x0102, 0x70); // LD (HL),B
    cpu.memory.write_byte(0x0103, 0x7E); // LD A,(HL)
    let cycles = cpu.step();
    assert_eq!(cpu.registers.b, 0x5A);
    assert_eq!(cycles, 8);
    let cycles = cpu.step();
    assert_eq!(cpu.memory.read_byte(0x9000), 0x5A);
    assert_eq!(cycles, 8);
    let cycles = cpu.step();
    assert_eq!(cpu.registers.a, 0x5A);
    assert_eq!(cycles, 8);
    assert_eq!(cpu.registers.pc, 0x0104);
}

#[test]
fn ld_word_and_indirect_from_sp() {
    let mut cpu = Cpu::new();
    cpu.memory.write_byte(0x0100, 0x31); // LD SP,d16
    cpu.memory.write_byte(0x0101, 0xCD);
    cpu.memory.write_byte(0x0102, 0xAB);
    cpu.memory.write_byte(0x0103, 0x08); // LD (a16),SP
    cpu.memory.write_byte(0x0104, 0x00);
    cpu.memory.write_byte(0x0105, 0x90);
    let cycles = cpu.step();
    assert_eq!(cpu.registers.sp, 0xABCD);
    assert_eq!(cycles, 12);
    let cycles = cpu.step();
    assert_eq!(cpu.memory.read_byte(0x9000), 0xCD);
    assert_eq!(cpu.memory.read_byte(0x9001), 0xAB);
    assert_eq!(cycles, 20);
    assert_eq!(cpu.registers.pc, 0x0106);
}

#[test]
fn ld_a_from_hl_plus_advances_hl() {
    let mut cpu = Cpu::new();
    cpu.registers.set_hl(0x9000);
    cpu.memory.write_byte(0x9000, 0x77);
    cpu.memory.write_byte(0x0100, 0x2A); // LD A,(HL+)
    let cycles = cpu.step();
    assert_eq!(cpu.registers.a, 0x77);
    assert_eq!(cpu.registers.hl(), 0x9001);
    assert_eq!(cycles, 8);
}

#[test]
fn ldh_offset_forms() {
    let mut cpu = Cpu::new();
    cpu.registers.a = 0x42;
    cpu.memory.write_byte(0x0100, 0xE0); // LDH (a8),A
    cpu.memory.write_byte(0x0101, 0x80);
    cpu.memory.write_byte(0x0102, 0xF0); // LDH A,(a8)
    cpu.memory.write_byte(0x0103, 0x80);
    let cycles = cpu.step();
    assert_eq!(cpu.memory.read_byte(0xFF80), 0x42);
    assert_eq!(cycles, 12);
    cpu.registers.a = 0;
    let cycles = cpu.step();
    assert_eq!(cpu.registers.a, 0x42);
    assert_eq!(cycles, 12);
}

#[test]
fn hl_from_sp_plus_offset() {
    let mut cpu = Cpu::new();
    cpu.registers.sp = 0xFFF8;
    cpu.memory.write_byte(0x0100, 0xF8); // LD HL,SP+e8
    cpu.memory.write_byte(0x0101, 0x02);
    let cycles = cpu.step();
    assert_eq!(cpu.registers.hl(), 0xFFFA);
    assert!(!cpu.registers.flag_z);
    assert!(!cpu.registers.flag_n);
    assert_eq!(cycles, 12);
}

#[test]
fn jp_hl_costs_four_cycles() {
    let mut cpu = Cpu::new();
    cpu.registers.set_hl(0x4321);
    cpu.memory.write_byte(0x0100, 0xE9);
    let cycles = cpu.step();
    assert_eq!(cpu.registers.pc, 0x4321);
    assert_eq!(cycles, 4);
}

#[test]
fn stop_halts_the_machine() {
    let mut cpu = Cpu::new();
    cpu.memory.write_byte(0x0100, 0x10);
    let cycles = cpu.step();
    assert!(cpu.is_halted);
    assert_eq!(cycles, 4);
}

#[test]
fn cb_res_and_set_on_memory() {
    let mut cpu = Cpu::new();
    cpu.registers.set_hl(0x9000);
    cpu.memory.write_byte(0x9000, 0xFF);
    cpu.memory.write_byte(0x0100, 0xCB);
    cpu.memory.write_byte(0x0101, 0xBE); // RES 7,(HL)
    cpu.memory.write_byte(0x0102, 0xCB);
    cpu.memory.write_byte(0x0103, 0xC6); // SET 0,(HL)
    let cycles = cpu.step();
    assert_eq!(cpu.memory.read_byte(0x9000), 0x7F);
    assert_eq!(cycles, 16);
    cpu.memory.write_byte(0x9000, 0x00);
    let cycles = cpu.step();
    assert_eq!(cpu.memory.read_byte(0x9000), 0x01);
    assert_eq!(cycles, 16);
    assert_eq!(cpu.registers.pc, 0x0104);
}

#[test]
fn cb_srl_and_sra_differ_on_sign_bit() {
    let mut cpu = Cpu::new();
    cpu.registers.c = 0x81;
    cpu.memory.write_byte(0x0100, 0xCB);
    cpu.memory.write_byte(0x0101, 0x39); // SRL C
    cpu.step();
    assert_eq!(cpu.registers.c, 0x40);
    assert!(cpu.registers.flag_c);

    let mut cpu = Cpu::new();
    cpu.registers.c = 0x81;
    cpu.memory.write_byte(0x0100, 0xCB);
    cpu.memory.write_byte(0x0101, 0x29); // SRA C
    cpu.step();
    assert_eq!(cpu.registers.c, 0xC0);
    assert!(cpu.registers.flag_c);
}

#[test]
fn cb_rotates_through_carry() {
    let mut cpu = Cpu::new();
    cpu.registers.d = 0x80;
    cpu.registers.flag_c = true;
    cpu.memory.write_byte(0x0100, 0xCB);
    cpu.memory.write_byte(0x0101, 0x12); // RL D
    cpu.step();
    assert_eq!(cpu.registers.d, 0x01);
    assert!(cpu.registers.flag_c);
    assert!(!cpu.registers.flag_z);
}

#[test]
fn jr_backwards_with_negative_offset() {
    let mut cpu = Cpu::new();
    cpu.memory.write_byte(0x0100, 0x18); // JR e8
    cpu.memory.write_byte(0x0101, 0xFE); // -2: jump to itself
    let cycles = cpu.step();
    assert_eq!(cpu.registers.pc, 0x0100);
    assert_eq!(cycles, 12);
}
