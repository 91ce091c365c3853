//! The LR35902 register file: eight 8-bit registers, the 16-bit program
//! counter and stack pointer, and the four status flags Z, N, H and C.
//!
//! The flag register F is not stored as a byte: it is packed on demand from
//! the four booleans, so its low nibble always reads as zero.

use vstd::prelude::*;

verus! {

#[derive(Clone, Copy, PartialEq, Eq, Structural, Debug)]
pub struct Registers {
    pub a: u8,
    pub b: u8,
    pub c: u8,
    pub d: u8,
    pub e: u8,
    pub h: u8,
    pub l: u8,
    pub pc: u16,
    pub sp: u16,
    pub flag_z: bool,
    pub flag_n: bool,
    pub flag_h: bool,
    pub flag_c: bool,
}

impl Registers {
    /// The packed flag byte: Z, N, H, C in bits 7 to 4, low nibble zero.
    pub open spec fn f_spec(&self) -> u8 {
        ((if self.flag_z { 0x80int } else { 0int }) + (if self.flag_n { 0x40int } else { 0int })
            + (if self.flag_h { 0x20int } else { 0int })
            + (if self.flag_c { 0x10int } else { 0int })) as u8
    }

    pub open spec fn af_spec(&self) -> u16 {
        (self.a * 256 + self.f_spec()) as u16
    }

    pub open spec fn bc_spec(&self) -> u16 {
        (self.b * 256 + self.c) as u16
    }

    pub open spec fn de_spec(&self) -> u16 {
        (self.d * 256 + self.e) as u16
    }

    pub open spec fn hl_spec(&self) -> u16 {
        (self.h * 256 + self.l) as u16
    }

    /// The register file after decoding a flag byte: each flag is the
    /// corresponding bit of `value`; the low nibble is ignored.
    pub open spec fn set_f_spec(self, value: u8) -> Registers {
        Registers {
            flag_z: (value / 128) % 2 == 1,
            flag_n: (value / 64) % 2 == 1,
            flag_h: (value / 32) % 2 == 1,
            flag_c: (value / 16) % 2 == 1,
            ..self
        }
    }

    pub open spec fn set_af_spec(self, value: u16) -> Registers {
        (Registers { a: (value / 256) as u8, ..self }).set_f_spec((value % 256) as u8)
    }

    pub open spec fn set_bc_spec(self, value: u16) -> Registers {
        Registers { b: (value / 256) as u8, c: (value % 256) as u8, ..self }
    }

    pub open spec fn set_de_spec(self, value: u16) -> Registers {
        Registers { d: (value / 256) as u8, e: (value % 256) as u8, ..self }
    }

    pub open spec fn set_hl_spec(self, value: u16) -> Registers {
        Registers { h: (value / 256) as u8, l: (value % 256) as u8, ..self }
    }

    pub fn new() -> (r: Registers)
        ensures
            r == (Registers {
                a: 0,
                b: 0,
                c: 0,
                d: 0,
                e: 0,
                h: 0,
                l: 0,
                pc: 0x0100,
                sp: 0xFFFE,
                flag_z: false,
                flag_n: false,
                flag_h: false,
                flag_c: false,
            }),
    {
        Registers {
            a: 0,
            b: 0,
            c: 0,
            d: 0,
            e: 0,
            h: 0,
            l: 0,
            pc: 0x0100,
            sp: 0xFFFE,
            flag_z: false,
            flag_n: false,
            flag_h: false,
            flag_c: false,
        }
    }

    /// Get the value of the 16-bit register pair AF.
    /// Its low nibble always reads as zero.
    pub fn af(&self) -> (r: u16)
        ensures
            r == self.af_spec(),
            r % 16 == 0,
    {
        (self.a as u16) * 256 + (self.f() as u16)
    }

    /// Get the value of the 16-bit register pair BC.
    pub fn bc(&self) -> (r: u16)
        ensures
            r == self.bc_spec(),
    {
        (self.b as u16) * 256 + (self.c as u16)
    }

    /// Get the value of the 16-bit register pair DE.
    pub fn de(&self) -> (r: u16)
        ensures
            r == self.de_spec(),
    {
        (self.d as u16) * 256 + (self.e as u16)
    }

    /// Get the value of the 16-bit register pair HL.
    pub fn hl(&self) -> (r: u16)
        ensures
            r == self.hl_spec(),
    {
        (self.h as u16) * 256 + (self.l as u16)
    }

    /// Pack the four flags into the 8-bit flag register F.
    /// The low four bits are always zero.
    pub fn f(&self) -> (r: u8)
        ensures
            r == self.f_spec(),
            r % 16 == 0,
    {
        let mut f: u8 = 0;
        if self.flag_z {
            f = f + 0x80;
        }
        if self.flag_n {
            f = f + 0x40;
        }
        if self.flag_h {
            f = f + 0x20;
        }
        if self.flag_c {
            f = f + 0x10;
        }
        f
    }

    /// Set the 16-bit register pair AF: the high byte goes to A, the high
    /// nibble of the low byte is decoded into the four flags.
    pub fn set_af(&mut self, value: u16)
        ensures
            *final(self) == old(self).set_af_spec(value),
    {
        self.a = (value / 256) as u8;
        self.set_f((value % 256) as u8);
    }

    /// Set the 16-bit register pair BC.
    pub fn set_bc(&mut self, value: u16)
        ensures
            *final(self) == old(self).set_bc_spec(value),
            final(self).bc_spec() == value,
    {
        self.b = (value / 256) as u8;
        self.c = (value % 256) as u8;
    }

    /// Set the 16-bit register pair DE.
    pub fn set_de(&mut self, value: u16)
        ensures
            *final(self) == old(self).set_de_spec(value),
            final(self).de_spec() == value,
    {
        self.d = (value / 256) as u8;
        self.e = (value % 256) as u8;
    }

    /// Set the 16-bit register pair HL.
    pub fn set_hl(&mut self, value: u16)
        ensures
            *final(self) == old(self).set_hl_spec(value),
            final(self).hl_spec() == value,
    {
        self.h = (value / 256) as u8;
        self.l = (value % 256) as u8;
    }

    /// Decode a flag byte into the four flags; the low nibble is ignored.
    pub fn set_f(&mut self, value: u8)
        ensures
            *final(self) == old(self).set_f_spec(value),
    {
        self.flag_z = (value / 128) % 2 == 1;
        self.flag_n = (value / 64) % 2 == 1;
        self.flag_h = (value / 32) % 2 == 1;
        self.flag_c = (value / 16) % 2 == 1;
    }

    /// Advance the program counter by n, wrapping modulo 2^16.
    pub fn inc_pc(&mut self, n: u8)
        ensures
            *final(self) == (Registers {
                pc: ((old(self).pc + n) % 0x10000) as u16,
                ..*old(self)
            }),
    {
        self.pc = self.pc.wrapping_add(n as u16);
    }

    /// Advance the stack pointer by n, wrapping modulo 2^16.
    pub fn inc_sp(&mut self, n: u8)
        ensures
            *final(self) == (Registers {
                sp: ((old(self).sp + n) % 0x10000) as u16,
                ..*old(self)
            }),
    {
        self.sp = self.sp.wrapping_add(n as u16);
    }

    /// Move the stack pointer back by n, wrapping modulo 2^16.
    pub fn dec_sp(&mut self, n: u8)
        ensures
            *final(self) == (Registers {
                sp: ((old(self).sp - n) % 0x10000) as u16,
                ..*old(self)
            }),
    {
        self.sp = self.sp.wrapping_sub(n as u16);
    }
}

/// Setting a 16-bit register pair and reading it back returns the value that
/// was set, and the high byte of the pair lands in the first register of the
/// pair.
pub proof fn lemma_pair_set_get(r: Registers, v: u16)
    ensures
        r.set_bc_spec(v).bc_spec() == v,
        r.set_bc_spec(v).b == v / 256,
        r.set_de_spec(v).de_spec() == v,
        r.set_de_spec(v).d == v / 256,
        r.set_hl_spec(v).hl_spec() == v,
        r.set_hl_spec(v).h == v / 256,
{
}

/// The flag register is packed from the four booleans on every read, so
/// its low nibble — and the low nibble of AF — reads as zero in every
/// machine state, whatever instructions ran before.
pub proof fn lemma_af_low_nibble_zero(r: Registers)
    ensures
        r.f_spec() % 16 == 0,
        r.af_spec() % 16 == 0,
{
}

/// Packing the four flags into F and decoding F again restores the flags,
/// and A survives the round trip through AF: `set_af(af())` is the identity
/// on A and on all four flags.
pub proof fn lemma_af_round_trip(r: Registers)
    ensures
        r.set_af_spec(r.af_spec()) == (Registers {
            flag_z: r.flag_z,
            flag_n: r.flag_n,
            flag_h: r.flag_h,
            flag_c: r.flag_c,
            ..r
        }),
{
    let f = r.f_spec();
    assert(r.af_spec() / 256 == r.a);
    assert(r.af_spec() % 256 == f);
    assert((f / 128) % 2 == 1 <==> r.flag_z);
    assert((f / 64) % 2 == 1 <==> r.flag_n);
    assert((f / 32) % 2 == 1 <==> r.flag_h);
    assert((f / 16) % 2 == 1 <==> r.flag_c);
}

} // verus!
