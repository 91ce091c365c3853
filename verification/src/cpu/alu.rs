//! The ALU primitives: flag-producing 8-bit and 16-bit arithmetic, rotates,
//! shifts and bit tests, exactly as the LR35902 defines them.
//!
//! Each primitive reads at most the accumulator's operand and the carry flag,
//! writes the four flags, and returns the result; none touches memory. Every
//! primitive has a spec twin that gives the new register file and the result
//! as a mathematical function of the old one.

use vstd::prelude::*;

use crate::cpu::registers::Registers;
use crate::cpu::instructions::BitPosition;

verus! {

/// The carry-in: 1 when a with-carry operation finds the carry flag set.
pub open spec fn carry_in(r: Registers, with_carry: bool) -> int {
    if with_carry && r.flag_c {
        1int
    } else {
        0int
    }
}

/// ADD / ADC: A + value (+ carry). Z from the result, N cleared, H from the
/// low nibbles, C on unsigned overflow.
pub open spec fn add_spec(r: Registers, value: u8, with_carry: bool) -> (Registers, u8) {
    let k = carry_in(r, with_carry);
    let total = r.a + value + k;
    let res = (total % 256) as u8;
    (
        Registers {
            flag_z: res == 0,
            flag_n: false,
            flag_h: (r.a % 16) + (value % 16) + k > 15,
            flag_c: total > 255,
            ..r
        },
        res,
    )
}

/// SUB / SBC / CP: A - value (- carry). Z from the result, N set, H on a
/// low-nibble borrow, C on an unsigned borrow.
pub open spec fn sub_spec(r: Registers, value: u8, with_carry: bool) -> (Registers, u8) {
    let k = carry_in(r, with_carry);
    let total = r.a - value - k;
    let res = (if total < 0 {
        total + 256
    } else {
        total
    }) as u8;
    (
        Registers {
            flag_z: res == 0,
            flag_n: true,
            flag_h: (r.a % 16) < (value % 16) + k,
            flag_c: r.a < value + k,
            ..r
        },
        res,
    )
}

/// AND: Z from the result, N cleared, H set, C cleared.
pub open spec fn and_spec(r: Registers, value: u8) -> Registers {
    let res = r.a & value;
    Registers { a: res, flag_z: res == 0, flag_n: false, flag_h: true, flag_c: false, ..r }
}

/// OR: Z from the result, N, H and C cleared.
pub open spec fn or_spec(r: Registers, value: u8) -> Registers {
    let res = r.a | value;
    Registers { a: res, flag_z: res == 0, flag_n: false, flag_h: false, flag_c: false, ..r }
}

/// XOR: Z from the result, N, H and C cleared.
pub open spec fn xor_spec(r: Registers, value: u8) -> Registers {
    let res = r.a ^ value;
    Registers { a: res, flag_z: res == 0, flag_n: false, flag_h: false, flag_c: false, ..r }
}

/// INC on a byte: Z from the result, N cleared, H when the low nibble was
/// 0xF, C unchanged.
pub open spec fn inc8_spec(r: Registers, value: u8) -> (Registers, u8) {
    let res = ((value + 1) % 256) as u8;
    (Registers { flag_z: res == 0, flag_n: false, flag_h: value % 16 == 15, ..r }, res)
}

/// DEC on a byte: Z from the result, N set, H when the low nibble was 0x0,
/// C unchanged.
pub open spec fn dec8_spec(r: Registers, value: u8) -> (Registers, u8) {
    let res = ((value - 1) % 256) as u8;
    (Registers { flag_z: res == 0, flag_n: true, flag_h: value % 16 == 0, ..r }, res)
}

/// DAA, the decimal adjust after an addition or subtraction in BCD. After an
/// addition (N clear): add 0x60 when C is set or A exceeds 0x99, setting C,
/// then add 0x06 when H is set or the low nibble exceeds 9. After a
/// subtraction (N set): subtract 0x60 when C is set (C keeps its value), and
/// subtract 0x06 when H is set. Z from the result, H always cleared, N
/// unchanged.
pub open spec fn daa_spec(r: Registers, value: u8) -> (Registers, u8) {
    if !r.flag_n {
        let carry = r.flag_c || value > 0x99;
        let v1 = if carry {
            value + 0x60
        } else {
            value as int
        };
        let v2 = if r.flag_h || value % 16 > 9 {
            v1 + 0x06
        } else {
            v1
        };
        let res = (v2 % 256) as u8;
        (Registers { flag_z: res == 0, flag_h: false, flag_c: carry, ..r }, res)
    } else {
        let v1 = if r.flag_c {
            value - 0x60
        } else {
            value as int
        };
        let v2 = if r.flag_h {
            v1 - 0x06
        } else {
            v1
        };
        let res = (v2 % 256) as u8;
        (Registers { flag_z: res == 0, flag_h: false, ..r }, res)
    }
}

/// ADD HL,rr: Z unchanged, N cleared, H on a bit-11 carry, C on a bit-15
/// carry.
pub open spec fn add_hl_spec(r: Registers, value: u16) -> (Registers, u16) {
    let hl = r.hl_spec();
    let total = hl + value;
    let res = (total % 0x10000) as u16;
    (
        Registers {
            flag_n: false,
            flag_h: (hl % 0x1000) + (value % 0x1000) > 0xFFF,
            flag_c: total > 0xFFFF,
            ..r
        },
        res,
    )
}

/// RR / RRA: rotate right through the carry flag. The old carry enters bit
/// 7; the old bit 0 becomes the carry. Z from the result only when
/// `set_zero` (the A-only form RRA forces Z to 0); N and H cleared.
pub open spec fn rr_spec(r: Registers, value: u8, set_zero: bool) -> (Registers, u8) {
    let res = (if r.flag_c {
        0x80u8
    } else {
        0u8
    }) | (value >> 1);
    (
        Registers {
            flag_z: set_zero && res == 0,
            flag_n: false,
            flag_h: false,
            flag_c: value & 1 == 1,
            ..r
        },
        res,
    )
}

/// RL / RLA: rotate left through the carry flag. The old carry enters bit 0;
/// the old bit 7 becomes the carry.
pub open spec fn rl_spec(r: Registers, value: u8, set_zero: bool) -> (Registers, u8) {
    let res = (value << 1) | (if r.flag_c {
        1u8
    } else {
        0u8
    });
    (
        Registers {
            flag_z: set_zero && res == 0,
            flag_n: false,
            flag_h: false,
            flag_c: value & 0x80 == 0x80,
            ..r
        },
        res,
    )
}

/// RLC / RLCA: rotate left; bit 7 wraps to bit 0 and becomes the carry.
pub open spec fn rlc_spec(r: Registers, value: u8, set_zero: bool) -> (Registers, u8) {
    let res = (value << 1) | (value >> 7);
    (
        Registers {
            flag_z: set_zero && res == 0,
            flag_n: false,
            flag_h: false,
            flag_c: value >> 7 == 1,
            ..r
        },
        res,
    )
}

/// RRC / RRCA: rotate right; bit 0 wraps to bit 7 and becomes the carry.
pub open spec fn rrc_spec(r: Registers, value: u8, set_zero: bool) -> (Registers, u8) {
    let res = (value >> 1) | (value << 7);
    (
        Registers {
            flag_z: set_zero && res == 0,
            flag_n: false,
            flag_h: false,
            flag_c: value & 1 == 1,
            ..r
        },
        res,
    )
}

/// SRL: shift right, bit 7 cleared; the old bit 0 becomes the carry.
pub open spec fn srl_spec(r: Registers, value: u8) -> (Registers, u8) {
    let res = value >> 1;
    (
        Registers {
            flag_z: res == 0,
            flag_n: false,
            flag_h: false,
            flag_c: value & 1 == 1,
            ..r
        },
        res,
    )
}

/// SRA: shift right keeping bit 7; the old bit 0 becomes the carry.
pub open spec fn sra_spec(r: Registers, value: u8) -> (Registers, u8) {
    let res = (value & 0x80) | (value >> 1);
    (
        Registers {
            flag_z: res == 0,
            flag_n: false,
            flag_h: false,
            flag_c: value & 1 == 1,
            ..r
        },
        res,
    )
}

/// SLA: shift left; the old bit 7 becomes the carry.
pub open spec fn sla_spec(r: Registers, value: u8) -> (Registers, u8) {
    let res = value << 1;
    (
        Registers {
            flag_z: res == 0,
            flag_n: false,
            flag_h: false,
            flag_c: value & 0x80 == 0x80,
            ..r
        },
        res,
    )
}

/// SWAP: exchange the nibbles; Z from the result, N, H and C cleared.
pub open spec fn swap_spec(r: Registers, value: u8) -> (Registers, u8) {
    let res = ((value & 0x0F) << 4) | ((value & 0xF0) >> 4);
    (
        Registers { flag_z: res == 0, flag_n: false, flag_h: false, flag_c: false, ..r },
        res,
    )
}

/// BIT n: Z when bit n of the value is clear, N cleared, H set, C unchanged.
pub open spec fn bit_test_spec(r: Registers, value: u8, bit: BitPosition) -> Registers {
    Registers {
        flag_z: (value >> bit.index_spec()) & 1 == 0,
        flag_n: false,
        flag_h: true,
        ..r
    }
}

/// RES n: clear bit n; no flag changes.
pub open spec fn reset_bit_spec(value: u8, bit: BitPosition) -> u8 {
    match bit {
        BitPosition::B0 => value & 0xFE,
        BitPosition::B1 => value & 0xFD,
        BitPosition::B2 => value & 0xFB,
        BitPosition::B3 => value & 0xF7,
        BitPosition::B4 => value & 0xEF,
        BitPosition::B5 => value & 0xDF,
        BitPosition::B6 => value & 0xBF,
        BitPosition::B7 => value & 0x7F,
    }
}

/// SET n: set bit n; no flag changes.
pub open spec fn set_bit_spec(value: u8, bit: BitPosition) -> u8 {
    match bit {
        BitPosition::B0 => value | 0x01,
        BitPosition::B1 => value | 0x02,
        BitPosition::B2 => value | 0x04,
        BitPosition::B3 => value | 0x08,
        BitPosition::B4 => value | 0x10,
        BitPosition::B5 => value | 0x20,
        BitPosition::B6 => value | 0x40,
        BitPosition::B7 => value | 0x80,
    }
}

/// A + value (+ carry-in when `with_carry`), writing the four flags.
pub fn alu_add(regs: &mut Registers, value: u8, with_carry: bool) -> (r: u8)
    ensures
        (*final(regs), r) == add_spec(*old(regs), value, with_carry),
{
    let k: u8 = if with_carry && regs.flag_c {
        1
    } else {
        0
    };
    let total: u16 = regs.a as u16 + value as u16 + k as u16;
    let res: u8 = (total % 256) as u8;
    regs.flag_z = res == 0;
    regs.flag_n = false;
    regs.flag_h = (regs.a % 16) + (value % 16) + k > 15;
    regs.flag_c = total > 255;
    res
}

/// A - value (- carry-in when `with_carry`), writing the four flags.
pub fn alu_sub(regs: &mut Registers, value: u8, with_carry: bool) -> (r: u8)
    ensures
        (*final(regs), r) == sub_spec(*old(regs), value, with_carry),
{
    let k: u8 = if with_carry && regs.flag_c {
        1
    } else {
        0
    };
    let lhs: u16 = regs.a as u16;
    let rhs: u16 = value as u16 + k as u16;
    let res: u8 = if lhs >= rhs {
        (lhs - rhs) as u8
    } else {
        (lhs + 256 - rhs) as u8
    };
    regs.flag_z = res == 0;
    regs.flag_n = true;
    regs.flag_h = regs.a % 16 < value % 16 + k;
    regs.flag_c = lhs < rhs;
    res
}

/// A & value, written back to A, with the AND flag rule.
pub fn alu_and(regs: &mut Registers, value: u8)
    ensures
        *final(regs) == and_spec(*old(regs), value),
{
    let res = regs.a & value;
    regs.a = res;
    regs.flag_z = res == 0;
    regs.flag_n = false;
    regs.flag_h = true;
    regs.flag_c = false;
}

/// A | value, written back to A, with the OR flag rule.
pub fn alu_or(regs: &mut Registers, value: u8)
    ensures
        *final(regs) == or_spec(*old(regs), value),
{
    let res = regs.a | value;
    regs.a = res;
    regs.flag_z = res == 0;
    regs.flag_n = false;
    regs.flag_h = false;
    regs.flag_c = false;
}

/// A ^ value, written back to A, with the XOR flag rule.
pub fn alu_xor(regs: &mut Registers, value: u8)
    ensures
        *final(regs) == xor_spec(*old(regs), value),
{
    let res = regs.a ^ value;
    regs.a = res;
    regs.flag_z = res == 0;
    regs.flag_n = false;
    regs.flag_h = false;
    regs.flag_c = false;
}

/// value + 1 with the INC flag rule; the carry flag is left alone.
pub fn inc_8bit(regs: &mut Registers, value: u8) -> (r: u8)
    ensures
        (*final(regs), r) == inc8_spec(*old(regs), value),
{
    let res = value.wrapping_add(1);
    regs.flag_z = res == 0;
    regs.flag_n = false;
    regs.flag_h = value % 16 == 15;
    res
}

/// value - 1 with the DEC flag rule; the carry flag is left alone.
pub fn dec_8bit(regs: &mut Registers, value: u8) -> (r: u8)
    ensures
        (*final(regs), r) == dec8_spec(*old(regs), value),
{
    let res = value.wrapping_sub(1);
    regs.flag_z = res == 0;
    regs.flag_n = true;
    regs.flag_h = value % 16 == 0;
    res
}

/// Decimal adjust of the accumulator value after a BCD addition or
/// subtraction.
pub fn decimal_adjust(regs: &mut Registers, value: u8) -> (r: u8)
    ensures
        (*final(regs), r) == daa_spec(*old(regs), value),
{
    let mut carry = false;
    let res: u8 = if !regs.flag_n {
        let mut result = value;
        if regs.flag_c || value > 0x99 {
            carry = true;
            result = result.wrapping_add(0x60);
        }
        if regs.flag_h || value % 16 > 9 {
            result = result.wrapping_add(0x06);
        }
        result
    } else {
        carry = regs.flag_c;
        let mut result = value;
        if regs.flag_c {
            result = result.wrapping_sub(0x60);
        }
        if regs.flag_h {
            result = result.wrapping_sub(0x06);
        }
        result
    };
    regs.flag_z = res == 0;
    regs.flag_h = false;
    regs.flag_c = carry;
    res
}

/// HL + value with the 16-bit flag rule: H at bit 11, C at bit 15, Z left
/// alone.
pub fn add_hl(regs: &mut Registers, value: u16) -> (r: u16)
    ensures
        (*final(regs), r) == add_hl_spec(*old(regs), value),
{
    let hl = regs.hl();
    let res = hl.wrapping_add(value);
    regs.flag_n = false;
    regs.flag_h = hl % 0x1000 + value % 0x1000 > 0xFFF;
    regs.flag_c = hl as u32 + value as u32 > 0xFFFF;
    res
}

/// Rotate right through the carry flag.
pub fn rotate_right_through_carry(regs: &mut Registers, value: u8, set_zero: bool) -> (r: u8)
    ensures
        (*final(regs), r) == rr_spec(*old(regs), value, set_zero),
{
    let carry_bit: u8 = if regs.flag_c {
        0x80
    } else {
        0
    };
    let res = carry_bit | (value >> 1);
    regs.flag_z = set_zero && res == 0;
    regs.flag_n = false;
    regs.flag_h = false;
    regs.flag_c = value & 1 == 1;
    res
}

/// Rotate left through the carry flag.
pub fn rotate_left_through_carry(regs: &mut Registers, value: u8, set_zero: bool) -> (r: u8)
    ensures
        (*final(regs), r) == rl_spec(*old(regs), value, set_zero),
{
    let carry_bit: u8 = if regs.flag_c {
        1
    } else {
        0
    };
    let res = (value << 1) | carry_bit;
    regs.flag_z = set_zero && res == 0;
    regs.flag_n = false;
    regs.flag_h = false;
    regs.flag_c = value & 0x80 == 0x80;
    res
}

/// Rotate left; bit 7 wraps around and becomes the carry.
pub fn rotate_left(regs: &mut Registers, value: u8, set_zero: bool) -> (r: u8)
    ensures
        (*final(regs), r) == rlc_spec(*old(regs), value, set_zero),
{
    let res = (value << 1) | (value >> 7);
    regs.flag_z = set_zero && res == 0;
    regs.flag_n = false;
    regs.flag_h = false;
    regs.flag_c = value >> 7 == 1;
    res
}

/// Rotate right; bit 0 wraps around and becomes the carry.
pub fn rotate_right(regs: &mut Registers, value: u8, set_zero: bool) -> (r: u8)
    ensures
        (*final(regs), r) == rrc_spec(*old(regs), value, set_zero),
{
    let res = (value >> 1) | (value << 7);
    regs.flag_z = set_zero && res == 0;
    regs.flag_n = false;
    regs.flag_h = false;
    regs.flag_c = value & 1 == 1;
    res
}

/// Shift right logically.
pub fn shift_right_logical(regs: &mut Registers, value: u8) -> (r: u8)
    ensures
        (*final(regs), r) == srl_spec(*old(regs), value),
{
    let res = value >> 1;
    regs.flag_z = res == 0;
    regs.flag_n = false;
    regs.flag_h = false;
    regs.flag_c = value & 1 == 1;
    res
}

/// Shift right arithmetically, keeping the sign bit.
pub fn shift_right_arithmetic(regs: &mut Registers, value: u8) -> (r: u8)
    ensures
        (*final(regs), r) == sra_spec(*old(regs), value),
{
    let res = (value & 0x80) | (value >> 1);
    regs.flag_z = res == 0;
    regs.flag_n = false;
    regs.flag_h = false;
    regs.flag_c = value & 1 == 1;
    res
}

/// Shift left arithmetically.
pub fn shift_left_arithmetic(regs: &mut Registers, value: u8) -> (r: u8)
    ensures
        (*final(regs), r) == sla_spec(*old(regs), value),
{
    let res = value << 1;
    regs.flag_z = res == 0;
    regs.flag_n = false;
    regs.flag_h = false;
    regs.flag_c = value & 0x80 == 0x80;
    res
}

/// Exchange the two nibbles of the value.
pub fn swap_nibbles(regs: &mut Registers, value: u8) -> (r: u8)
    ensures
        (*final(regs), r) == swap_spec(*old(regs), value),
{
    let res = ((value & 0x0F) << 4) | ((value & 0xF0) >> 4);
    regs.flag_z = res == 0;
    regs.flag_n = false;
    regs.flag_h = false;
    regs.flag_c = false;
    res
}

/// Test one bit of the value, writing Z, N and H.
pub fn bit_test(regs: &mut Registers, value: u8, bit: BitPosition)
    ensures
        *final(regs) == bit_test_spec(*old(regs), value, bit),
{
    let idx = bit.index();
    regs.flag_z = (value >> idx) & 1 == 0;
    regs.flag_n = false;
    regs.flag_h = true;
}

/// Clear one bit of the value; flags are untouched.
pub fn reset_bit(value: u8, bit: BitPosition) -> (r: u8)
    ensures
        r == reset_bit_spec(value, bit),
{
    match bit {
        BitPosition::B0 => value & 0xFE,
        BitPosition::B1 => value & 0xFD,
        BitPosition::B2 => value & 0xFB,
        BitPosition::B3 => value & 0xF7,
        BitPosition::B4 => value & 0xEF,
        BitPosition::B5 => value & 0xDF,
        BitPosition::B6 => value & 0xBF,
        BitPosition::B7 => value & 0x7F,
    }
}

/// Set one bit of the value; flags are untouched.
pub fn set_bit(value: u8, bit: BitPosition) -> (r: u8)
    ensures
        r == set_bit_spec(value, bit),
{
    match bit {
        BitPosition::B0 => value | 0x01,
        BitPosition::B1 => value | 0x02,
        BitPosition::B2 => value | 0x04,
        BitPosition::B3 => value | 0x08,
        BitPosition::B4 => value | 0x10,
        BitPosition::B5 => value | 0x20,
        BitPosition::B6 => value | 0x40,
        BitPosition::B7 => value | 0x80,
    }
}

} // verus!
