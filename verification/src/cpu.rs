//! The CPU core: a register file and a flat memory driven by a
//! fetch-decode-execute engine.
//!
//! `execute` performs one decoded instruction and returns the next program
//! counter and the machine cycles consumed; `step` fetches and decodes the
//! opcode at PC, executes it, and moves PC. Both are verified against the
//! pure machine semantics in [`semantics`].

pub mod alu;
pub mod instructions;
pub mod memory;
pub mod registers;
pub mod semantics;

use vstd::prelude::*;

use crate::cpu::instructions::ADDHLTarget;
use crate::cpu::instructions::ArithmeticTarget;
use crate::cpu::instructions::Indirect;
use crate::cpu::instructions::Instruction;
use crate::cpu::instructions::IncDecTarget;
use crate::cpu::instructions::JumpTest;
use crate::cpu::instructions::LoadByteSource;
use crate::cpu::instructions::LoadByteTarget;
use crate::cpu::instructions::LoadType;
use crate::cpu::instructions::LoadWordTarget;
use crate::cpu::instructions::PrefixTarget;
use crate::cpu::instructions::StackTarget;
use crate::cpu::memory::Memory;
use crate::cpu::registers::Registers;
use crate::cpu::semantics::arith_operand;
use crate::cpu::semantics::imm16;
use crate::cpu::semantics::imm8;
use crate::cpu::semantics::indirect_addr;
use crate::cpu::semantics::indirect_post;
use crate::cpu::semantics::jump_cond;
use crate::cpu::semantics::load_byte_source_value;
use crate::cpu::semantics::pop_state;
use crate::cpu::semantics::pop_value;
use crate::cpu::semantics::prefix_operand;
use crate::cpu::semantics::push_state;
use crate::cpu::semantics::sign_ext;
use crate::cpu::semantics::spec_execute;
use crate::cpu::semantics::spec_step;
use crate::cpu::semantics::step_legal;
use crate::cpu::semantics::store_load_byte;
use crate::cpu::semantics::wrap16;
use crate::cpu::semantics::write_prefix_result;
use crate::cpu::semantics::CpuView;

verus! {

pub struct Cpu {
    pub registers: Registers,
    pub memory: Memory,
    pub is_halted: bool,
    pub interrupts_enabled: bool,
}

impl View for Cpu {
    type V = CpuView;

    open spec fn view(&self) -> CpuView {
        CpuView {
            regs: self.registers,
            mem: self.memory@,
            is_halted: self.is_halted,
            interrupts_enabled: self.interrupts_enabled,
        }
    }
}

impl Cpu {
    pub open spec fn wf(&self) -> bool {
        self@.wf()
    }

    /// A freshly powered machine: registers and memory zero, PC at 0x0100,
    /// SP at 0xFFFE, flags clear, not halted, interrupts disabled.
    pub fn new() -> (r: Cpu)
        ensures
            r.wf(),
            r@.regs == (Registers {
                a: 0,
                b: 0,
                c: 0,
                d: 0,
                e: 0,
                h: 0,
                l: 0,
                pc: 0x0100,
                sp: 0xFFFE,
                flag_z: false,
                flag_n: false,
                flag_h: false,
                flag_c: false,
            }),
            forall|i: int| 0 <= i < 0x10000 ==> r@.mem[i] == 0u8,
            !r@.is_halted,
            !r@.interrupts_enabled,
    {
        Cpu {
            registers: Registers::new(),
            memory: Memory::new(),
            is_halted: false,
            interrupts_enabled: false,
        }
    }

    /// The byte after the opcode.
    pub fn read_next_byte(&self) -> (r: u8)
        requires
            self.wf(),
        ensures
            r == imm8(self@),
    {
        self.memory.read_byte(self.registers.pc.wrapping_add(1))
    }

    /// The little-endian word after the opcode: the low byte at PC+1, the
    /// high byte at PC+2.
    pub fn read_next_word(&self) -> (r: u16)
        requires
            self.wf(),
        ensures
            r == imm16(self@),
    {
        let lsb = self.memory.read_byte(self.registers.pc.wrapping_add(1)) as u16;
        let msb = self.memory.read_byte(self.registers.pc.wrapping_add(2)) as u16;
        proof {
            assert(wrap16(wrap16(self.registers.pc + 1) + 1) == wrap16(self.registers.pc + 2));
        }
        msb * 256 + lsb
    }

    /// The program counter advanced by a few bytes, wrapping modulo 2^16.
    fn pc_plus(&self, d: u8) -> (r: u16)
        ensures
            r == wrap16(self.registers.pc + d),
    {
        self.registers.pc.wrapping_add(d as u16)
    }

    /// Whether a conditional instruction takes its branch.
    fn test_condition(&self, test: JumpTest) -> (r: bool)
        ensures
            r == jump_cond(self.registers, test),
    {
        match test {
            JumpTest::NotZero => !self.registers.flag_z,
            JumpTest::Zero => self.registers.flag_z,
            JumpTest::NotCarry => !self.registers.flag_c,
            JumpTest::Carry => self.registers.flag_c,
            JumpTest::Always => true,
        }
    }

    /// Sign-extend the immediate byte of JR, ADD SP and LD HL,SP+e8.
    fn sign_extend(byte: u8) -> (r: u16)
        ensures
            r == sign_ext(byte),
    {
        if byte >= 0x80 {
            0xFF00 + byte as u16
        } else {
            byte as u16
        }
    }

    /// Push a word: the high byte lands at SP-1, the low byte at SP-2.
    fn push(&mut self, value: u16)
        requires
            old(self).wf(),
        ensures
            final(self).wf(),
            final(self)@ == push_state(old(self)@, value),
    {
        self.registers.sp = self.registers.sp.wrapping_sub(1);
        self.memory.write_byte(self.registers.sp, (value / 256) as u8);
        self.registers.sp = self.registers.sp.wrapping_sub(1);
        self.memory.write_byte(self.registers.sp, (value % 256) as u8);
    }

    /// Pop a word: the low byte from SP, the high byte from SP+1.
    fn pop(&mut self) -> (r: u16)
        requires
            old(self).wf(),
        ensures
            final(self).wf(),
            final(self)@ == pop_state(old(self)@),
            r == pop_value(old(self)@),
    {
        let lsb = self.memory.read_byte(self.registers.sp) as u16;
        self.registers.sp = self.registers.sp.wrapping_add(1);
        let msb = self.memory.read_byte(self.registers.sp) as u16;
        self.registers.sp = self.registers.sp.wrapping_add(1);
        msb * 256 + lsb
    }

    /// An absolute jump: the word operand when taken, the instruction after
    /// this one when not.
    fn jump(&self, condition: bool) -> (r: (u16, u8))
        requires
            self.wf(),
        ensures
            condition ==> r == (imm16(self@), 16u8),
            !condition ==> r == (wrap16(self@.regs.pc + 3), 12u8),
    {
        if condition {
            (self.read_next_word(), 16)
        } else {
            (self.pc_plus(3), 12)
        }
    }

    /// A relative jump: the signed byte operand is added to the address of
    /// the next instruction.
    fn jump_relative(&self, condition: bool) -> (r: (u16, u8))
        requires
            self.wf(),
        ensures
            condition ==> r == (wrap16(wrap16(self@.regs.pc + 2) + sign_ext(imm8(self@))), 12u8),
            !condition ==> r == (wrap16(self@.regs.pc + 2), 8u8),
    {
        let next_step = self.pc_plus(2);
        if condition {
            let offset = Self::sign_extend(self.read_next_byte());
            (next_step.wrapping_add(offset), 12)
        } else {
            (next_step, 8)
        }
    }

    /// A call: push the address of the next instruction, then jump to the
    /// word operand.
    fn call(&mut self, condition: bool) -> (r: (u16, u8))
        requires
            old(self).wf(),
        ensures
            final(self).wf(),
            condition ==> final(self)@ == push_state(old(self)@, wrap16(old(self)@.regs.pc + 3))
                && r == (imm16(old(self)@), 24u8),
            !condition ==> final(self)@ == old(self)@ && r == (
                wrap16(old(self)@.regs.pc + 3),
                12u8,
            ),
    {
        let next_pc = self.pc_plus(3);
        if condition {
            let target = self.read_next_word();
            self.push(next_pc);
            (target, 24)
        } else {
            (next_pc, 12)
        }
    }

    /// A return: pop the return address when taken.
    fn ret(&mut self, condition: bool) -> (r: u16)
        requires
            old(self).wf(),
        ensures
            final(self).wf(),
            condition ==> final(self)@ == pop_state(old(self)@) && r == pop_value(old(self)@),
            !condition ==> final(self)@ == old(self)@ && r == wrap16(old(self)@.regs.pc + 1),
    {
        if condition {
            self.pop()
        } else {
            self.pc_plus(1)
        }
    }

    /// The push half of RST: the address of the next instruction goes on the
    /// stack.
    fn rst(&mut self)
        requires
            old(self).wf(),
        ensures
            final(self).wf(),
            final(self)@ == push_state(old(self)@, wrap16(old(self)@.regs.pc + 1)),
    {
        let next_pc = self.pc_plus(1);
        self.push(next_pc);
    }

    /// The operand byte of the 8-bit arithmetic family.
    fn arith_value(&self, target: ArithmeticTarget) -> (r: u8)
        requires
            self.wf(),
        ensures
            r == arith_operand(self@, target),
    {
        match target {
            ArithmeticTarget::A => self.registers.a,
            ArithmeticTarget::B => self.registers.b,
            ArithmeticTarget::C => self.registers.c,
            ArithmeticTarget::D => self.registers.d,
            ArithmeticTarget::E => self.registers.e,
            ArithmeticTarget::H => self.registers.h,
            ArithmeticTarget::L => self.registers.l,
            ArithmeticTarget::HLI => self.memory.read_byte(self.registers.hl()),
            ArithmeticTarget::D8 => self.read_next_byte(),
        }
    }

    /// PC advancement and cycle cost shared by the 8-bit arithmetic family.
    fn arith_pc_cycles(&self, target: ArithmeticTarget) -> (r: (u16, u8))
        ensures
            r.0 == wrap16(self.registers.pc + semantics::arith_advance(target)),
            r.1 == semantics::arith_cycles(target),
    {
        match target {
            ArithmeticTarget::HLI => (self.pc_plus(1), 8),
            ArithmeticTarget::D8 => (self.pc_plus(2), 8),
            _ => (self.pc_plus(1), 4),
        }
    }

    /// The source byte of a register-family load.
    fn load_source(&self, source: LoadByteSource) -> (r: u8)
        requires
            self.wf(),
        ensures
            r == load_byte_source_value(self@, source),
    {
        match source {
            LoadByteSource::A => self.registers.a,
            LoadByteSource::B => self.registers.b,
            LoadByteSource::C => self.registers.c,
            LoadByteSource::D => self.registers.d,
            LoadByteSource::E => self.registers.e,
            LoadByteSource::H => self.registers.h,
            LoadByteSource::L => self.registers.l,
            LoadByteSource::D8 => self.read_next_byte(),
            LoadByteSource::HLI => self.memory.read_byte(self.registers.hl()),
        }
    }

    /// Store a byte into a load destination.
    fn store_byte_target(&mut self, target: LoadByteTarget, v: u8)
        requires
            old(self).wf(),
        ensures
            final(self).wf(),
            final(self)@ == store_load_byte(old(self)@, target, v),
    {
        match target {
            LoadByteTarget::A => self.registers.a = v,
            LoadByteTarget::B => self.registers.b = v,
            LoadByteTarget::C => self.registers.c = v,
            LoadByteTarget::D => self.registers.d = v,
            LoadByteTarget::E => self.registers.e = v,
            LoadByteTarget::H => self.registers.h = v,
            LoadByteTarget::L => self.registers.l = v,
            LoadByteTarget::HLI => {
                let hl = self.registers.hl();
                self.memory.write_byte(hl, v);
            },
        }
    }

    /// The address an `Indirect` mode names, before any HL post-update.
    fn indirect_address(&self, ind: Indirect) -> (r: u16)
        requires
            self.wf(),
        ensures
            r == indirect_addr(self@, ind),
    {
        match ind {
            Indirect::BCIndirect => self.registers.bc(),
            Indirect::DEIndirect => self.registers.de(),
            Indirect::HLIndirectPlus => self.registers.hl(),
            Indirect::HLIndirectMinus => self.registers.hl(),
            Indirect::WordIndirect => self.read_next_word(),
            Indirect::LastByteIndirect => 0xFF00 + self.registers.c as u16,
        }
    }

    /// The HL post-increment or post-decrement of the HL+ and HL- modes.
    fn apply_indirect_post(&mut self, ind: Indirect)
        ensures
            final(self)@ == (CpuView { regs: indirect_post(old(self)@.regs, ind), ..old(self)@ }),
    {
        match ind {
            Indirect::HLIndirectPlus => {
                let hl = self.registers.hl();
                self.registers.set_hl(hl.wrapping_add(1));
            },
            Indirect::HLIndirectMinus => {
                let hl = self.registers.hl();
                self.registers.set_hl(hl.wrapping_sub(1));
            },
            _ => (),
        }
    }

    /// PC advancement and cycle cost of the indirect loads.
    fn indirect_pc_cycles(&self, ind: Indirect) -> (r: (u16, u8))
        ensures
            r.0 == wrap16(self.registers.pc + semantics::indirect_advance(ind)),
            r.1 == semantics::indirect_cycles(ind),
    {
        match ind {
            Indirect::WordIndirect => (self.pc_plus(3), 16),
            _ => (self.pc_plus(1), 8),
        }
    }

    /// The operand byte of a 0xCB-prefixed operation.
    fn prefix_value(&self, target: PrefixTarget) -> (r: u8)
        requires
            self.wf(),
        ensures
            r == prefix_operand(self@, target),
    {
        match target {
            PrefixTarget::A => self.registers.a,
            PrefixTarget::B => self.registers.b,
            PrefixTarget::C => self.registers.c,
            PrefixTarget::D => self.registers.d,
            PrefixTarget::E => self.registers.e,
            PrefixTarget::H => self.registers.h,
            PrefixTarget::L => self.registers.l,
            PrefixTarget::HLI => self.memory.read_byte(self.registers.hl()),
        }
    }

    /// Write a prefixed operation's result back to its operand place.
    fn store_prefix(&mut self, target: PrefixTarget, v: u8)
        requires
            old(self).wf(),
        ensures
            final(self).wf(),
            final(self)@ == write_prefix_result(old(self)@, target, old(self)@.regs, v),
    {
        match target {
            PrefixTarget::A => self.registers.a = v,
            PrefixTarget::B => self.registers.b = v,
            PrefixTarget::C => self.registers.c = v,
            PrefixTarget::D => self.registers.d = v,
            PrefixTarget::E => self.registers.e = v,
            PrefixTarget::H => self.registers.h = v,
            PrefixTarget::L => self.registers.l = v,
            PrefixTarget::HLI => {
                let hl = self.registers.hl();
                self.memory.write_byte(hl, v);
            },
        }
    }

    /// PC advancement and cycle cost of the 0xCB-prefixed operations: two
    /// bytes, 8 cycles on a register, 16 on the byte at HL.
    fn prefix_pc_cycles(&self, target: PrefixTarget) -> (r: (u16, u8))
        ensures
            r.0 == wrap16(self.registers.pc + 2),
            r.1 == semantics::prefix_cycles(target),
    {
        match target {
            PrefixTarget::HLI => (self.pc_plus(2), 16),
            _ => (self.pc_plus(2), 8),
        }
    }

    /// INC: full 8-bit flag semantics on a byte place, no flags on a 16-bit
    /// pair.
    #[verifier::rlimit(100)]
    #[verifier::spinoff_prover]
    fn exec_inc(&mut self, target: IncDecTarget) -> (r: (u16, u8))
        requires
            old(self).wf(),
        ensures
            final(self).wf(),
            ({
                let o = semantics::step_inc(old(self)@, target);
                final(self)@ == o.state && r.0 == o.next_pc && r.1 == o.cycles
            }),
    {
        match target {
            IncDecTarget::A => {
                let v = self.registers.a;
                let res = alu::inc_8bit(&mut self.registers, v);
                self.registers.a = res;
                (self.pc_plus(1), 4)
            },
            IncDecTarget::B => {
                let v = self.registers.b;
                let res = alu::inc_8bit(&mut self.registers, v);
                self.registers.b = res;
                (self.pc_plus(1), 4)
            },
            IncDecTarget::C => {
                let v = self.registers.c;
                let res = alu::inc_8bit(&mut self.registers, v);
                self.registers.c = res;
                (self.pc_plus(1), 4)
            },
            IncDecTarget::D => {
                let v = self.registers.d;
                let res = alu::inc_8bit(&mut self.registers, v);
                self.registers.d = res;
                (self.pc_plus(1), 4)
            },
            IncDecTarget::E => {
                let v = self.registers.e;
                let res = alu::inc_8bit(&mut self.registers, v);
                self.registers.e = res;
                (self.pc_plus(1), 4)
            },
            IncDecTarget::H => {
                let v = self.registers.h;
                let res = alu::inc_8bit(&mut self.registers, v);
                self.registers.h = res;
                (self.pc_plus(1), 4)
            },
            IncDecTarget::L => {
                let v = self.registers.l;
                let res = alu::inc_8bit(&mut self.registers, v);
                self.registers.l = res;
                (self.pc_plus(1), 4)
            },
            IncDecTarget::HLI => {
                let hl = self.registers.hl();
                let v = self.memory.read_byte(hl);
                let res = alu::inc_8bit(&mut self.registers, v);
                self.memory.write_byte(hl, res);
                (self.pc_plus(1), 12)
            },
            IncDecTarget::BC => {
                let v = self.registers.bc().wrapping_add(1);
                self.registers.set_bc(v);
                (self.pc_plus(1), 8)
            },
            IncDecTarget::DE => {
                let v = self.registers.de().wrapping_add(1);
                self.registers.set_de(v);
                (self.pc_plus(1), 8)
            },
            IncDecTarget::HL => {
                let v = self.registers.hl().wrapping_add(1);
                self.registers.set_hl(v);
                (self.pc_plus(1), 8)
            },
            IncDecTarget::SP => {
                self.registers.sp = self.registers.sp.wrapping_add(1);
                (self.pc_plus(1), 8)
            },
        }
    }

    /// DEC, the mirror of `exec_inc`.
    #[verifier::rlimit(100)]
    #[verifier::spinoff_prover]
    fn exec_dec(&mut self, target: IncDecTarget) -> (r: (u16, u8))
        requires
            old(self).wf(),
        ensures
            final(self).wf(),
            final(self)@ == semantics::step_dec(old(self)@, target).state,
            r.0 == semantics::step_dec(old(self)@, target).next_pc,
            r.1 == semantics::step_dec(old(self)@, target).cycles,
    {
        match target {
            IncDecTarget::A => {
                let v = self.registers.a;
                let res = alu::dec_8bit(&mut self.registers, v);
                self.registers.a = res;
                (self.pc_plus(1), 4)
            },
            IncDecTarget::B => {
                let v = self.registers.b;
                let res = alu::dec_8bit(&mut self.registers, v);
                self.registers.b = res;
                (self.pc_plus(1), 4)
            },
            IncDecTarget::C => {
                let v = self.registers.c;
                let res = alu::dec_8bit(&mut self.registers, v);
                self.registers.c = res;
                (self.pc_plus(1), 4)
            },
            IncDecTarget::D => {
                let v = self.registers.d;
                let res = alu::dec_8bit(&mut self.registers, v);
                self.registers.d = res;
                (self.pc_plus(1), 4)
            },
            IncDecTarget::E => {
                let v = self.registers.e;
                let res = alu::dec_8bit(&mut self.registers, v);
                self.registers.e = res;
                (self.pc_plus(1), 4)
            },
            IncDecTarget::H => {
                let v = self.registers.h;
                let res = alu::dec_8bit(&mut self.registers, v);
                self.registers.h = res;
                (self.pc_plus(1), 4)
            },
            IncDecTarget::L => {
                let v = self.registers.l;
                let res = alu::dec_8bit(&mut self.registers, v);
                self.registers.l = res;
                (self.pc_plus(1), 4)
            },
            IncDecTarget::HLI => {
                let hl = self.registers.hl();
                let v = self.memory.read_byte(hl);
                let res = alu::dec_8bit(&mut self.registers, v);
                self.memory.write_byte(hl, res);
                (self.pc_plus(1), 12)
            },
            IncDecTarget::BC => {
                let v = self.registers.bc().wrapping_sub(1);
                self.registers.set_bc(v);
                (self.pc_plus(1), 8)
            },
            IncDecTarget::DE => {
                let v = self.registers.de().wrapping_sub(1);
                self.registers.set_de(v);
                (self.pc_plus(1), 8)
            },
            IncDecTarget::HL => {
                let v = self.registers.hl().wrapping_sub(1);
                self.registers.set_hl(v);
                (self.pc_plus(1), 8)
            },
            IncDecTarget::SP => {
                self.registers.sp = self.registers.sp.wrapping_sub(1);
                (self.pc_plus(1), 8)
            },
        }
    }

    /// All the LD subvariants.
    #[verifier::rlimit(100)]
    #[verifier::spinoff_prover]
    fn exec_load(&mut self, load_type: LoadType) -> (r: (u16, u8))
        requires
            old(self).wf(),
        ensures
            final(self).wf(),
            ({
                let o = semantics::step_load(old(self)@, load_type);
                final(self)@ == o.state && r.0 == o.next_pc && r.1 == o.cycles
            }),
    {
        match load_type {
            LoadType::Byte(target, source) => {
                let v = self.load_source(source);
                self.store_byte_target(target, v);
                match source {
                    LoadByteSource::D8 => (self.pc_plus(2), 8),
                    LoadByteSource::HLI => (self.pc_plus(1), 8),
                    _ => {
                        let cycles: u8 = if matches!(target, LoadByteTarget::HLI) {
                            8
                        } else {
                            4
                        };
                        (self.pc_plus(1), cycles)
                    },
                }
            },
            LoadType::Word(target) => {
                let word = self.read_next_word();
                match target {
                    LoadWordTarget::BC => self.registers.set_bc(word),
                    LoadWordTarget::DE => self.registers.set_de(word),
                    LoadWordTarget::HL => self.registers.set_hl(word),
                    LoadWordTarget::SP => self.registers.sp = word,
                };
                (self.pc_plus(3), 12)
            },
            LoadType::AFromIndirect(source) => {
                let addr = self.indirect_address(source);
                let v = self.memory.read_byte(addr);
                self.apply_indirect_post(source);
                self.registers.a = v;
                self.indirect_pc_cycles(source)
            },
            LoadType::IndirectFromA(target) => {
                let addr = self.indirect_address(target);
                let a = self.registers.a;
                self.memory.write_byte(addr, a);
                self.apply_indirect_post(target);
                self.indirect_pc_cycles(target)
            },
            LoadType::ByteAddressFromA => {
                let offset = self.read_next_byte() as u16;
                let a = self.registers.a;
                self.memory.write_byte(0xFF00 + offset, a);
                (self.pc_plus(2), 12)
            },
            LoadType::AFromByteAddress => {
                let offset = self.read_next_byte() as u16;
                self.registers.a = self.memory.read_byte(0xFF00 + offset);
                (self.pc_plus(2), 12)
            },
            LoadType::SPFromHL => {
                self.registers.sp = self.registers.hl();
                (self.pc_plus(1), 8)
            },
            LoadType::IndirectFromSP => {
                let address = self.read_next_word();
                let sp = self.registers.sp;
                self.memory.write_byte(address, (sp % 256) as u8);
                self.memory.write_byte(address.wrapping_add(1), (sp / 256) as u8);
                (self.pc_plus(3), 20)
            },
            LoadType::HLFromSPN => {
                let ext = Self::sign_extend(self.read_next_byte());
                let sp = self.registers.sp;
                let res = sp.wrapping_add(ext);
                self.registers.set_hl(res);
                self.registers.flag_z = false;
                self.registers.flag_n = false;
                self.registers.flag_h = sp % 16 + ext % 16 > 15;
                self.registers.flag_c = sp % 256 + ext % 256 > 255;
                (self.pc_plus(2), 12)
            },
        }
    }

    /// The 8-bit arithmetic family: ADD, ADC, SUB, SBC, AND, OR, XOR, CP.
    #[verifier::rlimit(100)]
    #[verifier::spinoff_prover]
    fn exec_arith(&mut self, instruction: Instruction) -> (r: (u16, u8))
        requires
            old(self).wf(),
            instruction is ADD || instruction is ADC || instruction is SUB || instruction is SBC
                || instruction is AND || instruction is OR || instruction is XOR
                || instruction is CP,
        ensures
            final(self).wf(),
            ({
                let o = spec_execute(old(self)@, instruction);
                final(self)@ == o.state && r.0 == o.next_pc && r.1 == o.cycles
            }),
    {
        match instruction {
            Instruction::ADD(target) => {
                let value = self.arith_value(target);
                let res = alu::alu_add(&mut self.registers, value, false);
                self.registers.a = res;
                self.arith_pc_cycles(target)
            },
            Instruction::ADC(target) => {
                let value = self.arith_value(target);
                let res = alu::alu_add(&mut self.registers, value, true);
                self.registers.a = res;
                self.arith_pc_cycles(target)
            },
            Instruction::SUB(target) => {
                let value = self.arith_value(target);
                let res = alu::alu_sub(&mut self.registers, value, false);
                self.registers.a = res;
                self.arith_pc_cycles(target)
            },
            Instruction::SBC(target) => {
                let value = self.arith_value(target);
                let res = alu::alu_sub(&mut self.registers, value, true);
                self.registers.a = res;
                self.arith_pc_cycles(target)
            },
            Instruction::AND(target) => {
                let value = self.arith_value(target);
                alu::alu_and(&mut self.registers, value);
                self.arith_pc_cycles(target)
            },
            Instruction::OR(target) => {
                let value = self.arith_value(target);
                alu::alu_or(&mut self.registers, value);
                self.arith_pc_cycles(target)
            },
            Instruction::XOR(target) => {
                let value = self.arith_value(target);
                alu::alu_xor(&mut self.registers, value);
                self.arith_pc_cycles(target)
            },
            Instruction::CP(target) => {
                let value = self.arith_value(target);
                let _ = alu::alu_sub(&mut self.registers, value, false);
                self.arith_pc_cycles(target)
            },
            _ => vstd::pervasive::unreached(),
        }
    }

    /// Control flow and the stack: jumps, calls, returns, PUSH and POP.
    #[verifier::rlimit(100)]
    #[verifier::spinoff_prover]
    fn exec_control(&mut self, instruction: Instruction) -> (r: (u16, u8))
        requires
            old(self).wf(),
            instruction is JP || instruction is JR || instruction is JPI || instruction is PUSH
                || instruction is POP || instruction is CALL || instruction is RET || instruction is RETI
                || instruction is RST,
        ensures
            final(self).wf(),
            ({
                let o = spec_execute(old(self)@, instruction);
                final(self)@ == o.state && r.0 == o.next_pc && r.1 == o.cycles
            }),
    {
        match instruction {
            Instruction::JP(test) => {
                let condition = self.test_condition(test);
                self.jump(condition)
            },
            Instruction::JR(test) => {
                let condition = self.test_condition(test);
                self.jump_relative(condition)
            },
            Instruction::JPI => (self.registers.hl(), 4),
            Instruction::PUSH(target) => {
                let value = match target {
                    StackTarget::AF => self.registers.af(),
                    StackTarget::BC => self.registers.bc(),
                    StackTarget::DE => self.registers.de(),
                    StackTarget::HL => self.registers.hl(),
                };
                self.push(value);
                (self.pc_plus(1), 16)
            },
            Instruction::POP(target) => {
                let result = self.pop();
                match target {
                    StackTarget::AF => self.registers.set_af(result),
                    StackTarget::BC => self.registers.set_bc(result),
                    StackTarget::DE => self.registers.set_de(result),
                    StackTarget::HL => self.registers.set_hl(result),
                };
                (self.pc_plus(1), 12)
            },
            Instruction::CALL(test) => {
                let condition = self.test_condition(test);
                self.call(condition)
            },
            Instruction::RET(test) => {
                let condition = self.test_condition(test);
                let next_pc = self.ret(condition);
                let cycles: u8 = if condition && test == JumpTest::Always {
                    16
                } else if condition {
                    20
                } else {
                    8
                };
                (next_pc, cycles)
            },
            Instruction::RETI => {
                self.interrupts_enabled = true;
                let next_pc = self.pop();
                (next_pc, 16)
            },
            Instruction::RST(location) => {
                self.rst();
                (location.address(), 16)
            },
            _ => vstd::pervasive::unreached(),
        }
    }

    /// The one-byte instructions on flags, A and the 16-bit adds.
    #[verifier::rlimit(100)]
    #[verifier::spinoff_prover]
    fn exec_misc(&mut self, instruction: Instruction) -> (r: (u16, u8))
        requires
            old(self).wf(),
            instruction is DAA || instruction is CPL || instruction is ADDHL || instruction is ADDSP
                || instruction is CCF || instruction is SCF || instruction is RLCA || instruction is RRCA
                || instruction is RLA || instruction is RRA || instruction is NOP || instruction is HALT
                || instruction is STOP || instruction is DI || instruction is EI,
        ensures
            final(self).wf(),
            ({
                let o = spec_execute(old(self)@, instruction);
                final(self)@ == o.state && r.0 == o.next_pc && r.1 == o.cycles
            }),
    {
        match instruction {
            Instruction::DAA => {
                let v = self.registers.a;
                let res = alu::decimal_adjust(&mut self.registers, v);
                self.registers.a = res;
                (self.pc_plus(1), 4)
            },
            Instruction::CPL => {
                self.registers.a = !self.registers.a;
                self.registers.flag_n = true;
                self.registers.flag_h = true;
                (self.pc_plus(1), 4)
            },
            Instruction::ADDHL(target) => {
                let value = match target {
                    ADDHLTarget::BC => self.registers.bc(),
                    ADDHLTarget::DE => self.registers.de(),
                    ADDHLTarget::HL => self.registers.hl(),
                    ADDHLTarget::SP => self.registers.sp,
                };
                let res = alu::add_hl(&mut self.registers, value);
                self.registers.set_hl(res);
                (self.pc_plus(1), 8)
            },
            Instruction::ADDSP => {
                let ext = Self::sign_extend(self.read_next_byte());
                let sp = self.registers.sp;
                self.registers.flag_z = false;
                self.registers.flag_n = false;
                self.registers.flag_h = sp % 16 + ext % 16 > 15;
                self.registers.flag_c = sp % 256 + ext % 256 > 255;
                self.registers.sp = sp.wrapping_add(ext);
                (self.pc_plus(2), 16)
            },
            Instruction::CCF => {
                self.registers.flag_n = false;
                self.registers.flag_h = false;
                self.registers.flag_c = !self.registers.flag_c;
                (self.pc_plus(1), 4)
            },
            Instruction::SCF => {
                self.registers.flag_n = false;
                self.registers.flag_h = false;
                self.registers.flag_c = true;
                (self.pc_plus(1), 4)
            },
            Instruction::RLCA => {
                let v = self.registers.a;
                let res = alu::rotate_left(&mut self.registers, v, false);
                self.registers.a = res;
                (self.pc_plus(1), 4)
            },
            Instruction::RRCA => {
                let v = self.registers.a;
                let res = alu::rotate_right(&mut self.registers, v, false);
                self.registers.a = res;
                (self.pc_plus(1), 4)
            },
            Instruction::RLA => {
                let v = self.registers.a;
                let res = alu::rotate_left_through_carry(&mut self.registers, v, false);
                self.registers.a = res;
                (self.pc_plus(1), 4)
            },
            Instruction::RRA => {
                let v = self.registers.a;
                let res = alu::rotate_right_through_carry(&mut self.registers, v, false);
                self.registers.a = res;
                (self.pc_plus(1), 4)
            },
            Instruction::NOP => (self.pc_plus(1), 4),
            Instruction::HALT => {
                self.is_halted = true;
                (self.pc_plus(1), 4)
            },
            Instruction::STOP => {
                self.is_halted = true;
                (self.pc_plus(2), 4)
            },
            Instruction::DI => {
                self.interrupts_enabled = false;
                (self.pc_plus(1), 4)
            },
            Instruction::EI => {
                self.interrupts_enabled = true;
                (self.pc_plus(1), 4)
            },
            _ => vstd::pervasive::unreached(),
        }
    }

    /// The 0xCB-prefixed operations.
    #[verifier::rlimit(100)]
    #[verifier::spinoff_prover]
    fn exec_prefixed(&mut self, instruction: Instruction) -> (r: (u16, u8))
        requires
            old(self).wf(),
            instruction is BIT || instruction is RES || instruction is SET || instruction is SRL
                || instruction is RR || instruction is RL || instruction is RRC || instruction is RLC
                || instruction is SRA || instruction is SLA || instruction is SWAP,
        ensures
            final(self).wf(),
            ({
                let o = spec_execute(old(self)@, instruction);
                final(self)@ == o.state && r.0 == o.next_pc && r.1 == o.cycles
            }),
    {
        match instruction {
            Instruction::BIT(target, bit) => {
                let v = self.prefix_value(target);
                alu::bit_test(&mut self.registers, v, bit);
                self.prefix_pc_cycles(target)
            },
            Instruction::RES(target, bit) => {
                let v = self.prefix_value(target);
                let res = alu::reset_bit(v, bit);
                self.store_prefix(target, res);
                self.prefix_pc_cycles(target)
            },
            Instruction::SET(target, bit) => {
                let v = self.prefix_value(target);
                let res = alu::set_bit(v, bit);
                self.store_prefix(target, res);
                self.prefix_pc_cycles(target)
            },
            Instruction::SRL(target) => {
                let v = self.prefix_value(target);
                let res = alu::shift_right_logical(&mut self.registers, v);
                self.store_prefix(target, res);
                self.prefix_pc_cycles(target)
            },
            Instruction::RR(target) => {
                let v = self.prefix_value(target);
                let res = alu::rotate_right_through_carry(&mut self.registers, v, true);
                self.store_prefix(target, res);
                self.prefix_pc_cycles(target)
            },
            Instruction::RL(target) => {
                let v = self.prefix_value(target);
                let res = alu::rotate_left_through_carry(&mut self.registers, v, true);
                self.store_prefix(target, res);
                self.prefix_pc_cycles(target)
            },
            Instruction::RRC(target) => {
                let v = self.prefix_value(target);
                let res = alu::rotate_right(&mut self.registers, v, true);
                self.store_prefix(target, res);
                self.prefix_pc_cycles(target)
            },
            Instruction::RLC(target) => {
                let v = self.prefix_value(target);
                let res = alu::rotate_left(&mut self.registers, v, true);
                self.store_prefix(target, res);
                self.prefix_pc_cycles(target)
            },
            Instruction::SRA(target) => {
                let v = self.prefix_value(target);
                let res = alu::shift_right_arithmetic(&mut self.registers, v);
                self.store_prefix(target, res);
                self.prefix_pc_cycles(target)
            },
            Instruction::SLA(target) => {
                let v = self.prefix_value(target);
                let res = alu::shift_left_arithmetic(&mut self.registers, v);
                self.store_prefix(target, res);
                self.prefix_pc_cycles(target)
            },
            Instruction::SWAP(target) => {
                let v = self.prefix_value(target);
                let res = alu::swap_nibbles(&mut self.registers, v);
                self.store_prefix(target, res);
                self.prefix_pc_cycles(target)
            },
            _ => vstd::pervasive::unreached(),
        }
    }

    /// Execute one decoded instruction: perform its register and memory
    /// effects and return the next program counter and the machine cycles
    /// consumed. PC itself is not written; `step` does that.
    #[verifier::rlimit(100)]
    #[verifier::spinoff_prover]
    pub fn execute(&mut self, instruction: Instruction) -> (r: (u16, u8))
        requires
            old(self).wf(),
        ensures
            final(self).wf(),
            ({
                let o = spec_execute(old(self)@, instruction);
                final(self)@ == o.state && r.0 == o.next_pc && r.1 == o.cycles
            }),
    {
        match instruction {
            Instruction::ADD(..)
            | Instruction::ADC(..)
            | Instruction::SUB(..)
            | Instruction::SBC(..)
            | Instruction::AND(..)
            | Instruction::OR(..)
            | Instruction::XOR(..)
            | Instruction::CP(..) => self.exec_arith(instruction),
            Instruction::JP(..)
            | Instruction::JR(..)
            | Instruction::JPI
            | Instruction::PUSH(..)
            | Instruction::POP(..)
            | Instruction::CALL(..)
            | Instruction::RET(..)
            | Instruction::RETI
            | Instruction::RST(..) => self.exec_control(instruction),
            Instruction::DAA
            | Instruction::CPL
            | Instruction::ADDHL(..)
            | Instruction::ADDSP
            | Instruction::CCF
            | Instruction::SCF
            | Instruction::RLCA
            | Instruction::RRCA
            | Instruction::RLA
            | Instruction::RRA
            | Instruction::NOP
            | Instruction::HALT
            | Instruction::STOP
            | Instruction::DI
            | Instruction::EI => self.exec_misc(instruction),
            Instruction::BIT(..)
            | Instruction::RES(..)
            | Instruction::SET(..)
            | Instruction::SRL(..)
            | Instruction::RR(..)
            | Instruction::RL(..)
            | Instruction::RRC(..)
            | Instruction::RLC(..)
            | Instruction::SRA(..)
            | Instruction::SLA(..)
            | Instruction::SWAP(..) => self.exec_prefixed(instruction),
            Instruction::INC(target) => self.exec_inc(target),
            Instruction::DEC(target) => self.exec_dec(target),
            Instruction::LD(load_type) => self.exec_load(load_type),
        }
    }

    /// Advance the machine by one instruction: fetch the opcode at PC
    /// (re-fetching at PC+1 after the 0xCB prefix), decode, execute, and
    /// move PC to where the instruction said. Returns the machine cycles
    /// consumed. The opcode at PC must decode; an illegal opcode has no
    /// defined successor state.
    pub fn step(&mut self) -> (r: u8)
        requires
            old(self).wf(),
            step_legal(old(self)@),
        ensures
            final(self).wf(),
            final(self)@ == ({
                let o = spec_step(old(self)@);
                CpuView { regs: Registers { pc: o.next_pc, ..o.state.regs }, ..o.state }
            }),
            r == spec_step(old(self)@).cycles,
    {
        let op_byte = self.memory.read_byte(self.registers.pc);
        let instruction = if op_byte == 0xCB {
            let prefixed_byte = self.memory.read_byte(self.registers.pc.wrapping_add(1));
            Instruction::from_byte_prefixed(prefixed_byte)
        } else {
            match Instruction::from_byte_not_prefixed(op_byte) {
                Some(instruction) => instruction,
                None => vstd::pervasive::unreached(),
            }
        };
        let (next_pc, cycles) = self.execute(instruction);
        self.registers.pc = next_pc;
        cycles
    }
}

} // verus!
