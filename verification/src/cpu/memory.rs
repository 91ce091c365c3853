//! A flat 65,536-byte address space with byte-granular reads and writes.
//!
//! The Game Boy memory map (ROM banks, VRAM, WRAM, echo RAM, OAM, I/O ports,
//! HRAM, the interrupt-enable register) is documented but not enforced: every
//! address is backed by the same array.

use vstd::prelude::*;

verus! {

/// The number of addressable bytes: one byte for every 16-bit address.
pub const MEM_SIZE: usize = 0x10000;

pub struct Memory {
    bytes: Vec<u8>,
}

impl View for Memory {
    type V = Seq<u8>;

    closed spec fn view(&self) -> Seq<u8> {
        self.bytes@
    }
}

impl Memory {
    /// A memory is well formed when it backs the full 16-bit address space.
    pub open spec fn wf(&self) -> bool {
        self@.len() == MEM_SIZE
    }

    /// A fresh memory with every byte zero.
    pub fn new() -> (r: Memory)
        ensures
            r.wf(),
            forall|i: int| 0 <= i < MEM_SIZE ==> r@[i] == 0u8,
    {
        Memory { bytes: vec![0u8; MEM_SIZE] }
    }

    /// Read the byte at `address`. Total over the full address range.
    pub fn read_byte(&self, address: u16) -> (r: u8)
        requires
            self.wf(),
        ensures
            r == self@[address as int],
    {
        self.bytes[address as usize]
    }

    /// Write a byte at `address`. Total over the full address range.
    pub fn write_byte(&mut self, address: u16, value: u8)
        requires
            old(self).wf(),
        ensures
            final(self).wf(),
            final(self)@ == old(self)@.update(address as int, value),
    {
        self.bytes[address as usize] = value;
    }

    /// Copy a program image into the low end of the address space; the bytes
    /// past the image keep their current value.
    pub fn load_rom(&mut self, rom: &Vec<u8>)
        requires
            old(self).wf(),
            rom@.len() <= MEM_SIZE,
        ensures
            final(self).wf(),
            final(self)@ == rom@ + old(self)@.skip(rom@.len() as int),
    {
        let n = rom.len();
        let mut i: usize = 0;
        while i < n
            invariant
                self.wf(),
                n == rom@.len() <= MEM_SIZE,
                i <= n,
                forall|k: int| 0 <= k < i ==> self@[k] == rom@[k],
                forall|k: int| i <= k < MEM_SIZE ==> self@[k] == old(self)@[k],
            decreases n - i,
        {
            self.bytes[i] = rom[i];
            i = i + 1;
        }
        proof {
            assert(self@ =~= rom@ + old(self)@.skip(rom@.len() as int));
        }
    }

    /// The VRAM tile block: the bytes at addresses 0x8000 (inclusive) to
    /// 0x9800 (exclusive).
    pub fn tileset(&self) -> (r: &[u8])
        requires
            self.wf(),
        ensures
            r@ == self@.subrange(0x8000, 0x9800),
    {
        vstd::slice::slice_subrange(self.bytes.as_slice(), 0x8000, 0x9800)
    }
}

} // verus!
