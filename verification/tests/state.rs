//! The register file and the flat memory.

use lr35902::cpu::memory::Memory;
use lr35902::cpu::registers::Registers;

#[test]
fn fresh_registers() {
    let r = Registers::new();
    assert_eq!(r.pc, 0x0100);
    assert_eq!(r.sp, 0xFFFE);
    assert_eq!(r.a, 0);
    assert_eq!(r.f(), 0);
    assert!(!r.flag_z && !r.flag_n && !r.flag_h && !r.flag_c);
}

#[test]
fn pair_set_then_get_returns_value() {
    let mut r = Registers::new();
    r.set_bc(0xABCD);
    assert_eq!(r.bc(), 0xABCD);
    assert_eq!(r.b, 0xAB);
    assert_eq!(r.c, 0xCD);
    r.set_de(0x1234);
    assert_eq!(r.de(), 0x1234);
    assert_eq!(r.d, 0x12);
    r.set_hl(0xFF00);
    assert_eq!(r.hl(), 0xFF00);
    assert_eq!(r.h, 0xFF);
}

#[test]
fn flag_byte_low_nibble_reads_zero() {
    let mut r = Registers::new();
    r.flag_z = true;
    r.flag_n = true;
    r.flag_h = true;
    r.flag_c = true;
    assert_eq!(r.f(), 0xF0);
    assert_eq!(r.f() & 0x0F, 0);
    r.a = 0x5A;
    assert_eq!(r.af(), 0x5AF0);
    assert_eq!(r.af() & 0x000F, 0);
}

#[test]
fn set_af_masks_low_nibble_and_round_trips() {
    let mut r = Registers::new();
    r.set_af(0x12FF);
    assert_eq!(r.a, 0x12);
    assert!(r.flag_z && r.flag_n && r.flag_h && r.flag_c);
    assert_eq!(r.af(), 0x12F0);
    r.set_af(0x3407);
    assert_eq!(r.a, 0x34);
    assert!(!r.flag_z && !r.flag_n && !r.flag_h && !r.flag_c);
    assert_eq!(r.af(), 0x3400);
}

#[test]
fn set_f_decodes_each_bit() {
    let mut r = Registers::new();
    r.set_f(0x80);
    assert!(r.flag_z && !r.flag_n && !r.flag_h && !r.flag_c);
    r.set_f(0x40);
    assert!(!r.flag_z && r.flag_n && !r.flag_h && !r.flag_c);
    r.set_f(0x20);
    assert!(!r.flag_z && !r.flag_n && r.flag_h && !r.flag_c);
    r.set_f(0x10);
    assert!(!r.flag_z && !r.flag_n && !r.flag_h && r.flag_c);
}

#[test]
fn pc_and_sp_wrap() {
    let mut r = Registers::new();
    r.pc = 0xFFFF;
    r.inc_pc(2);
    assert_eq!(r.pc, 0x0001);
    r.sp = 0x0000;
    r.dec_sp(1);
    assert_eq!(r.sp, 0xFFFF);
    r.inc_sp(2);
    assert_eq!(r.sp, 0x0001);
}

#[test]
fn memory_read_write_total_over_address_space() {
    let mut m = Memory::new();
    assert_eq!(m.read_byte(0x0000), 0);
    assert_eq!(m.read_byte(0xFFFF), 0);
    m.write_byte(0x0000, 0x11);
    m.write_byte(0xFFFF, 0x22);
    m.write_byte(0x8123, 0x33);
    assert_eq!(m.read_byte(0x0000), 0x11);
    assert_eq!(m.read_byte(0xFFFF), 0x22);
    assert_eq!(m.read_byte(0x8123), 0x33);
}

#[test]
fn load_rom_copies_prefix_and_keeps_rest() {
    let mut m = Memory::new();
    m.write_byte(0x0003, 0xEE);
    let rom = vec![0xA0, 0xA1, 0xA2];
    m.load_rom(&rom);
    assert_eq!(m.read_byte(0x0000), 0xA0);
    assert_eq!(m.read_byte(0x0001), 0xA1);
    assert_eq!(m.read_byte(0x0002), 0xA2);
    assert_eq!(m.read_byte(0x0003), 0xEE);
}

#[test]
fn tileset_is_the_vram_tile_block() {
    let mut m = Memory::new();
    m.write_byte(0x8000, 0x42);
    m.write_byte(0x97FF, 0x24);
    let t = m.tileset();
    assert_eq!(t.len(), 0x1800);
    assert_eq!(t[0], 0x42);
    assert_eq!(t[0x17FF], 0x24);
}
