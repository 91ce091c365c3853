//! The mathematical meaning of one executed instruction: a pure function
//! from a machine state and an instruction to the next state, the next
//! program counter, and the number of machine cycles consumed.
//!
//! The executor in the parent module is verified against `spec_execute`
//! arm by arm; the universal laws at the bottom of this file (cycle counts,
//! PC advancement, the PUSH AF / POP AF round trip) are proved of
//! `spec_execute` itself.

use vstd::prelude::*;

use crate::cpu::alu::add_hl_spec;
use crate::cpu::alu::add_spec;
use crate::cpu::alu::and_spec;
use crate::cpu::alu::bit_test_spec;
use crate::cpu::alu::daa_spec;
use crate::cpu::alu::dec8_spec;
use crate::cpu::alu::inc8_spec;
use crate::cpu::alu::or_spec;
use crate::cpu::alu::reset_bit_spec;
use crate::cpu::alu::rl_spec;
use crate::cpu::alu::rlc_spec;
use crate::cpu::alu::rr_spec;
use crate::cpu::alu::rrc_spec;
use crate::cpu::alu::set_bit_spec;
use crate::cpu::alu::sla_spec;
use crate::cpu::alu::sra_spec;
use crate::cpu::alu::srl_spec;
use crate::cpu::alu::sub_spec;
use crate::cpu::alu::swap_spec;
use crate::cpu::alu::xor_spec;
use crate::cpu::instructions::decode_prefixed;
use crate::cpu::instructions::decode_unprefixed;
use crate::cpu::instructions::ADDHLTarget;
use crate::cpu::instructions::ArithmeticTarget;
use crate::cpu::instructions::BitPosition;
use crate::cpu::instructions::IncDecTarget;
use crate::cpu::instructions::Indirect;
use crate::cpu::instructions::Instruction;
use crate::cpu::instructions::JumpTest;
use crate::cpu::instructions::LoadByteSource;
use crate::cpu::instructions::LoadByteTarget;
use crate::cpu::instructions::LoadType;
use crate::cpu::instructions::LoadWordTarget;
use crate::cpu::instructions::PrefixTarget;
use crate::cpu::instructions::StackTarget;
use crate::cpu::registers::Registers;

verus! {

/// The whole observable machine state: the register file, the 64 KiB
/// memory, and the two host-visible mode bits.
#[verifier::ext_equal]
pub ghost struct CpuView {
    pub regs: Registers,
    pub mem: Seq<u8>,
    pub is_halted: bool,
    pub interrupts_enabled: bool,
}

/// What one instruction does: the state it leaves, the program counter to
/// continue at, and the machine cycles it consumed.
#[verifier::ext_equal]
pub ghost struct Outcome {
    pub state: CpuView,
    pub next_pc: u16,
    pub cycles: u8,
}

impl CpuView {
    pub open spec fn wf(self) -> bool {
        self.mem.len() == 0x10000
    }
}

/// 16-bit wrap-around: the value modulo 2^16, for values no further than
/// one wrap from the 16-bit range (every address computation here stays
/// within one addition or subtraction of two 16-bit values).
pub open spec fn wrap16(x: int) -> u16 {
    if x > 0xFFFF {
        (x - 0x10000) as u16
    } else if x < 0 {
        (x + 0x10000) as u16
    } else {
        x as u16
    }
}

/// The two's-complement sign extension of a byte to 16 bits.
pub open spec fn sign_ext(b: u8) -> u16 {
    if b < 0x80 {
        b as u16
    } else {
        (b + 0xFF00) as u16
    }
}

/// The byte in memory at an address.
pub open spec fn read8(s: CpuView, addr: u16) -> u8 {
    s.mem[addr as int]
}

/// The little-endian word in memory at an address (low byte first).
pub open spec fn read16(s: CpuView, addr: u16) -> u16 {
    (read8(s, addr) + 256 * read8(s, wrap16(addr + 1))) as u16
}

/// The immediate byte: the byte after the opcode.
pub open spec fn imm8(s: CpuView) -> u8 {
    read8(s, wrap16(s.regs.pc + 1))
}

/// The immediate word: the little-endian word after the opcode.
pub open spec fn imm16(s: CpuView) -> u16 {
    read16(s, wrap16(s.regs.pc + 1))
}

/// The state with one byte of memory replaced.
pub open spec fn write8(s: CpuView, addr: u16, value: u8) -> CpuView {
    CpuView { mem: s.mem.update(addr as int, value), ..s }
}

/// Whether a conditional jump, call or return takes its branch.
pub open spec fn jump_cond(r: Registers, test: JumpTest) -> bool {
    match test {
        JumpTest::NotZero => !r.flag_z,
        JumpTest::Zero => r.flag_z,
        JumpTest::NotCarry => !r.flag_c,
        JumpTest::Carry => r.flag_c,
        JumpTest::Always => true,
    }
}

/// The operand byte of the 8-bit arithmetic family.
pub open spec fn arith_operand(s: CpuView, t: ArithmeticTarget) -> u8 {
    match t {
        ArithmeticTarget::A => s.regs.a,
        ArithmeticTarget::B => s.regs.b,
        ArithmeticTarget::C => s.regs.c,
        ArithmeticTarget::D => s.regs.d,
        ArithmeticTarget::E => s.regs.e,
        ArithmeticTarget::H => s.regs.h,
        ArithmeticTarget::L => s.regs.l,
        ArithmeticTarget::HLI => read8(s, s.regs.hl_spec()),
        ArithmeticTarget::D8 => imm8(s),
    }
}

/// How far an 8-bit arithmetic instruction advances the program counter:
/// two bytes when it carries an immediate, one otherwise.
pub open spec fn arith_advance(t: ArithmeticTarget) -> int {
    match t {
        ArithmeticTarget::D8 => 2,
        _ => 1,
    }
}

/// The cycle cost of an 8-bit arithmetic instruction: 4 on a register,
/// 8 on the byte at HL or an immediate.
pub open spec fn arith_cycles(t: ArithmeticTarget) -> u8 {
    match t {
        ArithmeticTarget::HLI => 8u8,
        ArithmeticTarget::D8 => 8u8,
        _ => 4u8,
    }
}

/// The outcome shared by the 8-bit arithmetic family: new registers, the
/// family's PC advancement and cycle cost, memory untouched.
pub open spec fn arith_outcome(s: CpuView, t: ArithmeticTarget, r2: Registers) -> Outcome {
    Outcome {
        state: CpuView { regs: r2, ..s },
        next_pc: wrap16(s.regs.pc + arith_advance(t)),
        cycles: arith_cycles(t),
    }
}

pub open spec fn step_add(s: CpuView, t: ArithmeticTarget, with_carry: bool) -> Outcome {
    let (r2, res) = add_spec(s.regs, arith_operand(s, t), with_carry);
    arith_outcome(s, t, Registers { a: res, ..r2 })
}

pub open spec fn step_sub(s: CpuView, t: ArithmeticTarget, with_carry: bool) -> Outcome {
    let (r2, res) = sub_spec(s.regs, arith_operand(s, t), with_carry);
    arith_outcome(s, t, Registers { a: res, ..r2 })
}

/// CP: the flags of a subtraction, the result discarded.
pub open spec fn step_cp(s: CpuView, t: ArithmeticTarget) -> Outcome {
    let (r2, _res) = sub_spec(s.regs, arith_operand(s, t), false);
    arith_outcome(s, t, r2)
}

pub open spec fn step_and(s: CpuView, t: ArithmeticTarget) -> Outcome {
    arith_outcome(s, t, and_spec(s.regs, arith_operand(s, t)))
}

pub open spec fn step_or(s: CpuView, t: ArithmeticTarget) -> Outcome {
    arith_outcome(s, t, or_spec(s.regs, arith_operand(s, t)))
}

pub open spec fn step_xor(s: CpuView, t: ArithmeticTarget) -> Outcome {
    arith_outcome(s, t, xor_spec(s.regs, arith_operand(s, t)))
}

/// INC: full 8-bit flag semantics on a byte place; no flags on a 16-bit
/// pair; cycles 4 / 12 (byte at HL) / 8 (pair).
pub open spec fn step_inc(s: CpuView, t: IncDecTarget) -> Outcome {
    let next_pc = wrap16(s.regs.pc + 1);
    match t {
        IncDecTarget::A => {
            let (r2, res) = inc8_spec(s.regs, s.regs.a);
            Outcome { state: CpuView { regs: Registers { a: res, ..r2 }, ..s }, next_pc, cycles: 4 }
        },
        IncDecTarget::B => {
            let (r2, res) = inc8_spec(s.regs, s.regs.b);
            Outcome { state: CpuView { regs: Registers { b: res, ..r2 }, ..s }, next_pc, cycles: 4 }
        },
        IncDecTarget::C => {
            let (r2, res) = inc8_spec(s.regs, s.regs.c);
            Outcome { state: CpuView { regs: Registers { c: res, ..r2 }, ..s }, next_pc, cycles: 4 }
        },
        IncDecTarget::D => {
            let (r2, res) = inc8_spec(s.regs, s.regs.d);
            Outcome { state: CpuView { regs: Registers { d: res, ..r2 }, ..s }, next_pc, cycles: 4 }
        },
        IncDecTarget::E => {
            let (r2, res) = inc8_spec(s.regs, s.regs.e);
            Outcome { state: CpuView { regs: Registers { e: res, ..r2 }, ..s }, next_pc, cycles: 4 }
        },
        IncDecTarget::H => {
            let (r2, res) = inc8_spec(s.regs, s.regs.h);
            Outcome { state: CpuView { regs: Registers { h: res, ..r2 }, ..s }, next_pc, cycles: 4 }
        },
        IncDecTarget::L => {
            let (r2, res) = inc8_spec(s.regs, s.regs.l);
            Outcome { state: CpuView { regs: Registers { l: res, ..r2 }, ..s }, next_pc, cycles: 4 }
        },
        IncDecTarget::HLI => {
            let (r2, res) = inc8_spec(s.regs, read8(s, s.regs.hl_spec()));
            Outcome {
                state: write8(CpuView { regs: r2, ..s }, s.regs.hl_spec(), res),
                next_pc,
                cycles: 12,
            }
        },
        IncDecTarget::BC => {
            let r2 = s.regs.set_bc_spec(wrap16(s.regs.bc_spec() + 1));
            Outcome { state: CpuView { regs: r2, ..s }, next_pc, cycles: 8 }
        },
        IncDecTarget::DE => {
            let r2 = s.regs.set_de_spec(wrap16(s.regs.de_spec() + 1));
            Outcome { state: CpuView { regs: r2, ..s }, next_pc, cycles: 8 }
        },
        IncDecTarget::HL => {
            let r2 = s.regs.set_hl_spec(wrap16(s.regs.hl_spec() + 1));
            Outcome { state: CpuView { regs: r2, ..s }, next_pc, cycles: 8 }
        },
        IncDecTarget::SP => {
            let r2 = Registers { sp: wrap16(s.regs.sp + 1), ..s.regs };
            Outcome { state: CpuView { regs: r2, ..s }, next_pc, cycles: 8 }
        },
    }
}

/// DEC, the mirror of `step_inc`.
pub open spec fn step_dec(s: CpuView, t: IncDecTarget) -> Outcome {
    let next_pc = wrap16(s.regs.pc + 1);
    match t {
        IncDecTarget::A => {
            let (r2, res) = dec8_spec(s.regs, s.regs.a);
            Outcome { state: CpuView { regs: Registers { a: res, ..r2 }, ..s }, next_pc, cycles: 4 }
        },
        IncDecTarget::B => {
            let (r2, res) = dec8_spec(s.regs, s.regs.b);
            Outcome { state: CpuView { regs: Registers { b: res, ..r2 }, ..s }, next_pc, cycles: 4 }
        },
        IncDecTarget::C => {
            let (r2, res) = dec8_spec(s.regs, s.regs.c);
            Outcome { state: CpuView { regs: Registers { c: res, ..r2 }, ..s }, next_pc, cycles: 4 }
        },
        IncDecTarget::D => {
            let (r2, res) = dec8_spec(s.regs, s.regs.d);
            Outcome { state: CpuView { regs: Registers { d: res, ..r2 }, ..s }, next_pc, cycles: 4 }
        },
        IncDecTarget::E => {
            let (r2, res) = dec8_spec(s.regs, s.regs.e);
            Outcome { state: CpuView { regs: Registers { e: res, ..r2 }, ..s }, next_pc, cycles: 4 }
        },
        IncDecTarget::H => {
            let (r2, res) = dec8_spec(s.regs, s.regs.h);
            Outcome { state: CpuView { regs: Registers { h: res, ..r2 }, ..s }, next_pc, cycles: 4 }
        },
        IncDecTarget::L => {
            let (r2, res) = dec8_spec(s.regs, s.regs.l);
            Outcome { state: CpuView { regs: Registers { l: res, ..r2 }, ..s }, next_pc, cycles: 4 }
        },
        IncDecTarget::HLI => {
            let (r2, res) = dec8_spec(s.regs, read8(s, s.regs.hl_spec()));
            Outcome {
                state: write8(CpuView { regs: r2, ..s }, s.regs.hl_spec(), res),
                next_pc,
                cycles: 12,
            }
        },
        IncDecTarget::BC => {
            let r2 = s.regs.set_bc_spec(wrap16(s.regs.bc_spec() - 1));
            Outcome { state: CpuView { regs: r2, ..s }, next_pc, cycles: 8 }
        },
        IncDecTarget::DE => {
            let r2 = s.regs.set_de_spec(wrap16(s.regs.de_spec() - 1));
            Outcome { state: CpuView { regs: r2, ..s }, next_pc, cycles: 8 }
        },
        IncDecTarget::HL => {
            let r2 = s.regs.set_hl_spec(wrap16(s.regs.hl_spec() - 1));
            Outcome { state: CpuView { regs: r2, ..s }, next_pc, cycles: 8 }
        },
        IncDecTarget::SP => {
            let r2 = Registers { sp: wrap16(s.regs.sp - 1), ..s.regs };
            Outcome { state: CpuView { regs: r2, ..s }, next_pc, cycles: 8 }
        },
    }
}

/// The 16-bit value ADD HL,rr adds into HL.
pub open spec fn add_hl_operand(r: Registers, t: ADDHLTarget) -> u16 {
    match t {
        ADDHLTarget::BC => r.bc_spec(),
        ADDHLTarget::DE => r.de_spec(),
        ADDHLTarget::HL => r.hl_spec(),
        ADDHLTarget::SP => r.sp,
    }
}

pub open spec fn step_add_hl(s: CpuView, t: ADDHLTarget) -> Outcome {
    let (r2, res) = add_hl_spec(s.regs, add_hl_operand(s.regs, t));
    Outcome {
        state: CpuView { regs: r2.set_hl_spec(res), ..s },
        next_pc: wrap16(s.regs.pc + 1),
        cycles: 8,
    }
}

/// ADD SP,e8: the signed immediate added to SP; H and C come from the low
/// nibble and low byte of the unsigned extension, Z and N are cleared.
pub open spec fn step_add_sp(s: CpuView) -> Outcome {
    let ext = sign_ext(imm8(s));
    let r2 = Registers {
        sp: wrap16(s.regs.sp + ext),
        flag_z: false,
        flag_n: false,
        flag_h: (s.regs.sp % 16) + (ext % 16) > 15,
        flag_c: (s.regs.sp % 256) + (ext % 256) > 255,
        ..s.regs
    };
    Outcome { state: CpuView { regs: r2, ..s }, next_pc: wrap16(s.regs.pc + 2), cycles: 16 }
}

/// The source byte of a register-to-register load.
pub open spec fn load_byte_source_value(s: CpuView, source: LoadByteSource) -> u8 {
    match source {
        LoadByteSource::A => s.regs.a,
        LoadByteSource::B => s.regs.b,
        LoadByteSource::C => s.regs.c,
        LoadByteSource::D => s.regs.d,
        LoadByteSource::E => s.regs.e,
        LoadByteSource::H => s.regs.h,
        LoadByteSource::L => s.regs.l,
        LoadByteSource::D8 => imm8(s),
        LoadByteSource::HLI => read8(s, s.regs.hl_spec()),
    }
}

/// The state after a byte lands in a load destination.
pub open spec fn store_load_byte(s: CpuView, target: LoadByteTarget, v: u8) -> CpuView {
    match target {
        LoadByteTarget::A => CpuView { regs: Registers { a: v, ..s.regs }, ..s },
        LoadByteTarget::B => CpuView { regs: Registers { b: v, ..s.regs }, ..s },
        LoadByteTarget::C => CpuView { regs: Registers { c: v, ..s.regs }, ..s },
        LoadByteTarget::D => CpuView { regs: Registers { d: v, ..s.regs }, ..s },
        LoadByteTarget::E => CpuView { regs: Registers { e: v, ..s.regs }, ..s },
        LoadByteTarget::H => CpuView { regs: Registers { h: v, ..s.regs }, ..s },
        LoadByteTarget::L => CpuView { regs: Registers { l: v, ..s.regs }, ..s },
        LoadByteTarget::HLI => write8(s, s.regs.hl_spec(), v),
    }
}

/// The address named by an `Indirect` mode, before any HL post-update.
pub open spec fn indirect_addr(s: CpuView, ind: Indirect) -> u16 {
    match ind {
        Indirect::BCIndirect => s.regs.bc_spec(),
        Indirect::DEIndirect => s.regs.de_spec(),
        Indirect::HLIndirectPlus => s.regs.hl_spec(),
        Indirect::HLIndirectMinus => s.regs.hl_spec(),
        Indirect::WordIndirect => imm16(s),
        Indirect::LastByteIndirect => (0xFF00 + s.regs.c) as u16,
    }
}

/// The register file after the HL post-increment or post-decrement of the
/// HL+ and HL- modes; other modes leave the registers alone.
pub open spec fn indirect_post(r: Registers, ind: Indirect) -> Registers {
    match ind {
        Indirect::HLIndirectPlus => r.set_hl_spec(wrap16(r.hl_spec() + 1)),
        Indirect::HLIndirectMinus => r.set_hl_spec(wrap16(r.hl_spec() - 1)),
        _ => r,
    }
}

/// PC advancement and cycles of the indirect loads: the word-immediate mode
/// takes the two extra bytes and 16 cycles, the rest one byte and 8.
pub open spec fn indirect_advance(ind: Indirect) -> int {
    match ind {
        Indirect::WordIndirect => 3,
        _ => 1,
    }
}

pub open spec fn indirect_cycles(ind: Indirect) -> u8 {
    match ind {
        Indirect::WordIndirect => 16u8,
        _ => 8u8,
    }
}

pub open spec fn step_load(s: CpuView, lt: LoadType) -> Outcome {
    match lt {
        LoadType::Byte(target, source) => {
            let v = load_byte_source_value(s, source);
            let advance: int = match source {
                LoadByteSource::D8 => 2,
                _ => 1,
            };
            let cycles: u8 = if source is D8 || source is HLI || target is HLI {
                8u8
            } else {
                4u8
            };
            Outcome {
                state: store_load_byte(s, target, v),
                next_pc: wrap16(s.regs.pc + advance),
                cycles,
            }
        },
        LoadType::Word(target) => {
            let w = imm16(s);
            let r2 = match target {
                LoadWordTarget::BC => s.regs.set_bc_spec(w),
                LoadWordTarget::DE => s.regs.set_de_spec(w),
                LoadWordTarget::HL => s.regs.set_hl_spec(w),
                LoadWordTarget::SP => Registers { sp: w, ..s.regs },
            };
            Outcome { state: CpuView { regs: r2, ..s }, next_pc: wrap16(s.regs.pc + 3), cycles: 12 }
        },
        LoadType::AFromIndirect(source) => {
            let v = read8(s, indirect_addr(s, source));
            let r2 = Registers { a: v, ..indirect_post(s.regs, source) };
            Outcome {
                state: CpuView { regs: r2, ..s },
                next_pc: wrap16(s.regs.pc + indirect_advance(source)),
                cycles: indirect_cycles(source),
            }
        },
        LoadType::IndirectFromA(target) => {
            let s2 = write8(s, indirect_addr(s, target), s.regs.a);
            let r2 = indirect_post(s.regs, target);
            Outcome {
                state: CpuView { regs: r2, ..s2 },
                next_pc: wrap16(s.regs.pc + indirect_advance(target)),
                cycles: indirect_cycles(target),
            }
        },
        LoadType::ByteAddressFromA => {
            let s2 = write8(s, (0xFF00 + imm8(s)) as u16, s.regs.a);
            Outcome { state: s2, next_pc: wrap16(s.regs.pc + 2), cycles: 12 }
        },
        LoadType::AFromByteAddress => {
            let v = read8(s, (0xFF00 + imm8(s)) as u16);
            Outcome {
                state: CpuView { regs: Registers { a: v, ..s.regs }, ..s },
                next_pc: wrap16(s.regs.pc + 2),
                cycles: 12,
            }
        },
        LoadType::SPFromHL => {
            Outcome {
                state: CpuView { regs: Registers { sp: s.regs.hl_spec(), ..s.regs }, ..s },
                next_pc: wrap16(s.regs.pc + 1),
                cycles: 8,
            }
        },
        LoadType::IndirectFromSP => {
            let addr = imm16(s);
            let s2 = write8(s, addr, (s.regs.sp % 256) as u8);
            let s3 = write8(s2, wrap16(addr + 1), (s.regs.sp / 256) as u8);
            Outcome { state: s3, next_pc: wrap16(s.regs.pc + 3), cycles: 20 }
        },
        LoadType::HLFromSPN => {
            let ext = sign_ext(imm8(s));
            let r2 = Registers {
                flag_z: false,
                flag_n: false,
                flag_h: (s.regs.sp % 16) + (ext % 16) > 15,
                flag_c: (s.regs.sp % 256) + (ext % 256) > 255,
                ..s.regs.set_hl_spec(wrap16(s.regs.sp + ext))
            };
            Outcome { state: CpuView { regs: r2, ..s }, next_pc: wrap16(s.regs.pc + 2), cycles: 12 }
        },
    }
}

/// The word PUSH reads from the named register pair.
pub open spec fn stack_value(r: Registers, st: StackTarget) -> u16 {
    match st {
        StackTarget::AF => r.af_spec(),
        StackTarget::BC => r.bc_spec(),
        StackTarget::DE => r.de_spec(),
        StackTarget::HL => r.hl_spec(),
    }
}

/// The register file after POP writes the named register pair. POP AF
/// re-masks the low nibble of F to zero by construction.
pub open spec fn set_stack(r: Registers, st: StackTarget, v: u16) -> Registers {
    match st {
        StackTarget::AF => r.set_af_spec(v),
        StackTarget::BC => r.set_bc_spec(v),
        StackTarget::DE => r.set_de_spec(v),
        StackTarget::HL => r.set_hl_spec(v),
    }
}

/// The state after a 16-bit push: the high byte lands at SP-1, the low byte
/// at SP-2, and SP ends at the low byte.
pub open spec fn push_state(s: CpuView, v: u16) -> CpuView {
    let sp1 = wrap16(s.regs.sp - 1);
    let sp2 = wrap16(s.regs.sp - 2);
    CpuView {
        regs: Registers { sp: sp2, ..s.regs },
        mem: s.mem.update(sp1 as int, (v / 256) as u8).update(sp2 as int, (v % 256) as u8),
        ..s
    }
}

/// The word a pop reads: the low byte at SP, the high byte at SP+1.
pub open spec fn pop_value(s: CpuView) -> u16 {
    (read8(s, s.regs.sp) + 256 * read8(s, wrap16(s.regs.sp + 1))) as u16
}

/// The state after a pop has moved SP past the two bytes.
pub open spec fn pop_state(s: CpuView) -> CpuView {
    CpuView { regs: Registers { sp: wrap16(s.regs.sp + 2), ..s.regs }, ..s }
}

pub open spec fn step_jump(s: CpuView, test: JumpTest) -> Outcome {
    if jump_cond(s.regs, test) {
        Outcome { state: s, next_pc: imm16(s), cycles: 16 }
    } else {
        Outcome { state: s, next_pc: wrap16(s.regs.pc + 3), cycles: 12 }
    }
}

/// JR: the signed offset is relative to the address after the two-byte
/// instruction; 12 cycles taken, 8 not taken.
pub open spec fn step_jump_relative(s: CpuView, test: JumpTest) -> Outcome {
    let next = wrap16(s.regs.pc + 2);
    if jump_cond(s.regs, test) {
        Outcome { state: s, next_pc: wrap16(next + sign_ext(imm8(s))), cycles: 12 }
    } else {
        Outcome { state: s, next_pc: next, cycles: 8 }
    }
}

pub open spec fn step_call(s: CpuView, test: JumpTest) -> Outcome {
    if jump_cond(s.regs, test) {
        Outcome { state: push_state(s, wrap16(s.regs.pc + 3)), next_pc: imm16(s), cycles: 24 }
    } else {
        Outcome { state: s, next_pc: wrap16(s.regs.pc + 3), cycles: 12 }
    }
}

/// RET: an unconditional return costs 16 cycles, a conditional one 20 when
/// taken and 8 when not.
pub open spec fn step_ret(s: CpuView, test: JumpTest) -> Outcome {
    if jump_cond(s.regs, test) {
        Outcome {
            state: pop_state(s),
            next_pc: pop_value(s),
            cycles: if test is Always {
                16u8
            } else {
                20u8
            },
        }
    } else {
        Outcome { state: s, next_pc: wrap16(s.regs.pc + 1), cycles: 8 }
    }
}

/// The operand byte of a 0xCB-prefixed operation.
pub open spec fn prefix_operand(s: CpuView, t: PrefixTarget) -> u8 {
    match t {
        PrefixTarget::A => s.regs.a,
        PrefixTarget::B => s.regs.b,
        PrefixTarget::C => s.regs.c,
        PrefixTarget::D => s.regs.d,
        PrefixTarget::E => s.regs.e,
        PrefixTarget::H => s.regs.h,
        PrefixTarget::L => s.regs.l,
        PrefixTarget::HLI => read8(s, s.regs.hl_spec()),
    }
}

/// The state after a prefixed operation writes its result back, with `r2`
/// the register file the operation's flag effects produced. The byte at HL
/// is addressed by the HL value before any write.
pub open spec fn write_prefix_result(s: CpuView, t: PrefixTarget, r2: Registers, v: u8) -> CpuView {
    match t {
        PrefixTarget::A => CpuView { regs: Registers { a: v, ..r2 }, ..s },
        PrefixTarget::B => CpuView { regs: Registers { b: v, ..r2 }, ..s },
        PrefixTarget::C => CpuView { regs: Registers { c: v, ..r2 }, ..s },
        PrefixTarget::D => CpuView { regs: Registers { d: v, ..r2 }, ..s },
        PrefixTarget::E => CpuView { regs: Registers { e: v, ..r2 }, ..s },
        PrefixTarget::H => CpuView { regs: Registers { h: v, ..r2 }, ..s },
        PrefixTarget::L => CpuView { regs: Registers { l: v, ..r2 }, ..s },
        PrefixTarget::HLI => write8(CpuView { regs: r2, ..s }, s.regs.hl_spec(), v),
    }
}

/// Prefixed instructions advance PC by two (the prefix byte and the opcode)
/// and cost 8 cycles on a register, 16 on the byte at HL.
pub open spec fn prefix_cycles(t: PrefixTarget) -> u8 {
    match t {
        PrefixTarget::HLI => 16u8,
        _ => 8u8,
    }
}

pub open spec fn prefix_outcome(s: CpuView, t: PrefixTarget, state: CpuView) -> Outcome {
    Outcome { state, next_pc: wrap16(s.regs.pc + 2), cycles: prefix_cycles(t) }
}

/// One instruction, executed on a machine state: the complete dispatch over
/// the instruction set.
pub open spec fn spec_execute(s: CpuView, inst: Instruction) -> Outcome {
    let pc = s.regs.pc;
    match inst {
        Instruction::ADD(t) => step_add(s, t, false),
        Instruction::ADC(t) => step_add(s, t, true),
        Instruction::SUB(t) => step_sub(s, t, false),
        Instruction::SBC(t) => step_sub(s, t, true),
        Instruction::AND(t) => step_and(s, t),
        Instruction::OR(t) => step_or(s, t),
        Instruction::XOR(t) => step_xor(s, t),
        Instruction::CP(t) => step_cp(s, t),
        Instruction::INC(t) => step_inc(s, t),
        Instruction::DEC(t) => step_dec(s, t),
        Instruction::DAA => {
            let (r2, res) = daa_spec(s.regs, s.regs.a);
            Outcome {
                state: CpuView { regs: Registers { a: res, ..r2 }, ..s },
                next_pc: wrap16(pc + 1),
                cycles: 4,
            }
        },
        Instruction::CPL => {
            let r2 = Registers { a: !s.regs.a, flag_n: true, flag_h: true, ..s.regs };
            Outcome { state: CpuView { regs: r2, ..s }, next_pc: wrap16(pc + 1), cycles: 4 }
        },
        Instruction::ADDHL(t) => step_add_hl(s, t),
        Instruction::ADDSP => step_add_sp(s),
        Instruction::CCF => {
            let r2 = Registers { flag_n: false, flag_h: false, flag_c: !s.regs.flag_c, ..s.regs };
            Outcome { state: CpuView { regs: r2, ..s }, next_pc: wrap16(pc + 1), cycles: 4 }
        },
        Instruction::SCF => {
            let r2 = Registers { flag_n: false, flag_h: false, flag_c: true, ..s.regs };
            Outcome { state: CpuView { regs: r2, ..s }, next_pc: wrap16(pc + 1), cycles: 4 }
        },
        Instruction::RLCA => {
            let (r2, res) = rlc_spec(s.regs, s.regs.a, false);
            Outcome {
                state: CpuView { regs: Registers { a: res, ..r2 }, ..s },
                next_pc: wrap16(pc + 1),
                cycles: 4,
            }
        },
        Instruction::RRCA => {
            let (r2, res) = rrc_spec(s.regs, s.regs.a, false);
            Outcome {
                state: CpuView { regs: Registers { a: res, ..r2 }, ..s },
                next_pc: wrap16(pc + 1),
                cycles: 4,
            }
        },
        Instruction::RLA => {
            let (r2, res) = rl_spec(s.regs, s.regs.a, false);
            Outcome {
                state: CpuView { regs: Registers { a: res, ..r2 }, ..s },
                next_pc: wrap16(pc + 1),
                cycles: 4,
            }
        },
        Instruction::RRA => {
            let (r2, res) = rr_spec(s.regs, s.regs.a, false);
            Outcome {
                state: CpuView { regs: Registers { a: res, ..r2 }, ..s },
                next_pc: wrap16(pc + 1),
                cycles: 4,
            }
        },
        Instruction::LD(lt) => step_load(s, lt),
        Instruction::JP(test) => step_jump(s, test),
        Instruction::JR(test) => step_jump_relative(s, test),
        Instruction::JPI => Outcome { state: s, next_pc: s.regs.hl_spec(), cycles: 4 },
        Instruction::PUSH(st) => {
            Outcome {
                state: push_state(s, stack_value(s.regs, st)),
                next_pc: wrap16(pc + 1),
                cycles: 16,
            }
        },
        Instruction::POP(st) => {
            let s2 = pop_state(s);
            Outcome {
                state: CpuView { regs: set_stack(s2.regs, st, pop_value(s)), ..s2 },
                next_pc: wrap16(pc + 1),
                cycles: 12,
            }
        },
        Instruction::CALL(test) => step_call(s, test),
        Instruction::RET(test) => step_ret(s, test),
        Instruction::RETI => {
            let s2 = pop_state(CpuView { interrupts_enabled: true, ..s });
            Outcome { state: s2, next_pc: pop_value(s), cycles: 16 }
        },
        Instruction::RST(loc) => {
            Outcome {
                state: push_state(s, wrap16(pc + 1)),
                next_pc: loc.address_spec(),
                cycles: 16,
            }
        },
        Instruction::NOP => Outcome { state: s, next_pc: wrap16(pc + 1), cycles: 4 },
        Instruction::HALT => {
            Outcome {
                state: CpuView { is_halted: true, ..s },
                next_pc: wrap16(pc + 1),
                cycles: 4,
            }
        },
        Instruction::STOP => {
            Outcome {
                state: CpuView { is_halted: true, ..s },
                next_pc: wrap16(pc + 2),
                cycles: 4,
            }
        },
        Instruction::DI => {
            Outcome {
                state: CpuView { interrupts_enabled: false, ..s },
                next_pc: wrap16(pc + 1),
                cycles: 4,
            }
        },
        Instruction::EI => {
            Outcome {
                state: CpuView { interrupts_enabled: true, ..s },
                next_pc: wrap16(pc + 1),
                cycles: 4,
            }
        },
        Instruction::BIT(t, b) => {
            let r2 = bit_test_spec(s.regs, prefix_operand(s, t), b);
            prefix_outcome(s, t, CpuView { regs: r2, ..s })
        },
        Instruction::RES(t, b) => {
            let v = reset_bit_spec(prefix_operand(s, t), b);
            prefix_outcome(s, t, write_prefix_result(s, t, s.regs, v))
        },
        Instruction::SET(t, b) => {
            let v = set_bit_spec(prefix_operand(s, t), b);
            prefix_outcome(s, t, write_prefix_result(s, t, s.regs, v))
        },
        Instruction::SRL(t) => {
            let (r2, res) = srl_spec(s.regs, prefix_operand(s, t));
            prefix_outcome(s, t, write_prefix_result(s, t, r2, res))
        },
        Instruction::RR(t) => {
            let (r2, res) = rr_spec(s.regs, prefix_operand(s, t), true);
            prefix_outcome(s, t, write_prefix_result(s, t, r2, res))
        },
        Instruction::RL(t) => {
            let (r2, res) = rl_spec(s.regs, prefix_operand(s, t), true);
            prefix_outcome(s, t, write_prefix_result(s, t, r2, res))
        },
        Instruction::RRC(t) => {
            let (r2, res) = rrc_spec(s.regs, prefix_operand(s, t), true);
            prefix_outcome(s, t, write_prefix_result(s, t, r2, res))
        },
        Instruction::RLC(t) => {
            let (r2, res) = rlc_spec(s.regs, prefix_operand(s, t), true);
            prefix_outcome(s, t, write_prefix_result(s, t, r2, res))
        },
        Instruction::SRA(t) => {
            let (r2, res) = sra_spec(s.regs, prefix_operand(s, t));
            prefix_outcome(s, t, write_prefix_result(s, t, r2, res))
        },
        Instruction::SLA(t) => {
            let (r2, res) = sla_spec(s.regs, prefix_operand(s, t));
            prefix_outcome(s, t, write_prefix_result(s, t, r2, res))
        },
        Instruction::SWAP(t) => {
            let (r2, res) = swap_spec(s.regs, prefix_operand(s, t));
            prefix_outcome(s, t, write_prefix_result(s, t, r2, res))
        },
    }
}

/// The prefixed operand of a 0xCB instruction, or `None` for the primary
/// instruction set.
pub open spec fn prefixed_target_of(inst: Instruction) -> Option<PrefixTarget> {
    match inst {
        Instruction::BIT(t, _) => Some(t),
        Instruction::RES(t, _) => Some(t),
        Instruction::SET(t, _) => Some(t),
        Instruction::SRL(t) => Some(t),
        Instruction::RR(t) => Some(t),
        Instruction::RL(t) => Some(t),
        Instruction::RRC(t) => Some(t),
        Instruction::RLC(t) => Some(t),
        Instruction::SRA(t) => Some(t),
        Instruction::SLA(t) => Some(t),
        Instruction::SWAP(t) => Some(t),
        _ => None,
    }
}

/// Every instruction consumes a strictly positive number of machine cycles,
/// one of the fixed costs 4, 8, 12, 16, 20 or 24; and the next program
/// counter is by construction a 16-bit value, so it always lies within the
/// wrap-around PC space.
pub proof fn lemma_execute_cycles(s: CpuView, inst: Instruction)
    ensures
        ({
            let c = spec_execute(s, inst).cycles;
            c == 4 || c == 8 || c == 12 || c == 16 || c == 20 || c == 24
        }),
{
}

/// Popping AF right after pushing AF restores A and all four flags, from
/// any starting state: the flag byte survives the trip through memory and
/// its high nibble decodes back into the same four flags.
pub proof fn lemma_push_pop_af_identity(s: CpuView)
    requires
        s.wf(),
    ensures
        ({
            let s1 = spec_execute(s, Instruction::PUSH(StackTarget::AF)).state;
            let s2 = spec_execute(s1, Instruction::POP(StackTarget::AF)).state;
            s2.regs.a == s.regs.a && s2.regs.flag_z == s.regs.flag_z && s2.regs.flag_n
                == s.regs.flag_n && s2.regs.flag_h == s.regs.flag_h && s2.regs.flag_c
                == s.regs.flag_c
        }),
{
    let af = s.regs.af_spec();
    let s1 = spec_execute(s, Instruction::PUSH(StackTarget::AF)).state;
    let sp1 = wrap16(s.regs.sp - 1);
    let sp2 = wrap16(s.regs.sp - 2);
    assert(sp1 != sp2);
    assert(wrap16(sp2 + 1) == sp1);
    assert(s1.mem[sp2 as int] == (af % 256) as u8);
    assert(s1.mem[sp1 as int] == (af / 256) as u8);
    assert(pop_value(s1) == af);
    crate::cpu::registers::lemma_af_round_trip(s.regs);
    assert(s.regs.set_af_spec(af).flag_z == s.regs.flag_z);
}

/// The 8-bit arithmetic family advances PC by one byte and costs 4 cycles
/// on a register operand, one byte and 8 cycles on the byte at HL, and two
/// bytes and 8 cycles on an immediate — uniformly across ADD, ADC, SUB,
/// SBC, AND, OR, XOR and CP.
pub proof fn lemma_arith_advance_and_cost(s: CpuView, inst: Instruction, t: ArithmeticTarget)
    requires
        inst == Instruction::ADD(t) || inst == Instruction::ADC(t) || inst == Instruction::SUB(t)
            || inst == Instruction::SBC(t) || inst == Instruction::AND(t) || inst
            == Instruction::OR(t) || inst == Instruction::XOR(t) || inst == Instruction::CP(t),
    ensures
        ({
            let o = spec_execute(s, inst);
            &&& (t != ArithmeticTarget::D8 && t != ArithmeticTarget::HLI) ==> o.next_pc == wrap16(
                s.regs.pc + 1,
            ) && o.cycles == 4
            &&& t == ArithmeticTarget::HLI ==> o.next_pc == wrap16(s.regs.pc + 1) && o.cycles == 8
            &&& t == ArithmeticTarget::D8 ==> o.next_pc == wrap16(s.regs.pc + 2) && o.cycles == 8
        }),
{
}

/// Prefixed instructions always advance PC by two bytes (the prefix and the
/// opcode); they cost 8 cycles on a register operand and 16 on the byte at
/// HL.
#[verifier::rlimit(100)]
#[verifier::spinoff_prover]
pub proof fn lemma_prefixed_advance_and_cost(s: CpuView, inst: Instruction)
    requires
        prefixed_target_of(inst) is Some,
    ensures
        ({
            let o = spec_execute(s, inst);
            &&& o.next_pc == wrap16(s.regs.pc + 2)
            &&& o.cycles == (if prefixed_target_of(inst).unwrap() is HLI {
                16u8
            } else {
                8u8
            })
        }),
{
    match inst {
        Instruction::BIT(t, _) => assert(prefixed_target_of(inst) == Some(t)),
        Instruction::RES(t, _) => assert(prefixed_target_of(inst) == Some(t)),
        Instruction::SET(t, _) => assert(prefixed_target_of(inst) == Some(t)),
        Instruction::SRL(t) => assert(prefixed_target_of(inst) == Some(t)),
        Instruction::RR(t) => assert(prefixed_target_of(inst) == Some(t)),
        Instruction::RL(t) => assert(prefixed_target_of(inst) == Some(t)),
        Instruction::RRC(t) => assert(prefixed_target_of(inst) == Some(t)),
        Instruction::RLC(t) => assert(prefixed_target_of(inst) == Some(t)),
        Instruction::SRA(t) => assert(prefixed_target_of(inst) == Some(t)),
        Instruction::SLA(t) => assert(prefixed_target_of(inst) == Some(t)),
        Instruction::SWAP(t) => assert(prefixed_target_of(inst) == Some(t)),
        _ => (),
    }
}

/// Everything the 0xCB table decodes to is a prefixed operation.
pub proof fn lemma_decode_prefixed_is_prefixed(byte: u8)
    ensures
        prefixed_target_of(decode_prefixed(byte)) is Some,
{
}

/// Whether the byte at PC begins an instruction that `step` can perform:
/// either the 0xCB prefix (every prefixed byte decodes) or a legal primary
/// opcode.
pub open spec fn step_legal(s: CpuView) -> bool {
    read8(s, s.regs.pc) == 0xCB || decode_unprefixed(read8(s, s.regs.pc)) is Some
}

/// One whole step: fetch the opcode at PC (and, after the 0xCB prefix, the
/// byte after it), decode, and execute.
pub open spec fn spec_step(s: CpuView) -> Outcome {
    let op = read8(s, s.regs.pc);
    if op == 0xCB {
        spec_execute(s, decode_prefixed(read8(s, wrap16(s.regs.pc + 1))))
    } else {
        spec_execute(s, decode_unprefixed(op).unwrap())
    }
}

} // verus!
