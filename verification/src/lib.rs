//! A verified core of the Sharp LR35902 ("Game Boy") 8-bit CPU: a register
//! file with a packed flag byte, a flat 64 KiB memory, an opcode decoder, and
//! an executor that advances the machine one instruction at a time while
//! reporting the machine cycles each instruction consumed.

pub mod cpu;
pub mod gpu;
pub mod rom_reader;
