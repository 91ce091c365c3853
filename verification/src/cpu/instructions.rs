//! The LR35902 instruction set and its decoder.
//!
//! An instruction is a tagged variant carrying operand descriptors rather
//! than raw bytes. Decoding is a pure lookup in the standard opcode table:
//! the 256-entry primary table, of which eleven opcodes are illegal (and the
//! prefix byte 0xCB itself names no instruction), and the 256-entry table of
//! 0xCB-prefixed operations, where the high five bits select the operation
//! and the low three bits select the target.

use vstd::prelude::*;

verus! {

/// Operand of the 8-bit arithmetic family: a register, the byte at address
/// HL, or the immediate byte after the opcode.
#[derive(Clone, Copy, Debug, PartialEq, Eq, Structural)]
pub enum ArithmeticTarget {
    A,
    B,
    C,
    D,
    E,
    H,
    L,
    HLI,
    D8,
}

/// Operand of INC and DEC: an 8-bit place (register or the byte at HL) with
/// full flag semantics, or a 16-bit register pair with no flag effect.
#[derive(Clone, Copy, Debug, PartialEq, Eq, Structural)]
pub enum IncDecTarget {
    A,
    B,
    C,
    D,
    E,
    H,
    L,
    HLI,
    BC,
    DE,
    HL,
    SP,
}

/// The 16-bit register pair added into HL by ADD HL,rr.
#[derive(Clone, Copy, Debug, PartialEq, Eq, Structural)]
pub enum ADDHLTarget {
    BC,
    DE,
    HL,
    SP,
}

/// Source of a byte load: a register, the immediate byte, or the byte at HL.
#[derive(Clone, Copy, Debug, PartialEq, Eq, Structural)]
pub enum LoadByteSource {
    A,
    B,
    C,
    D,
    E,
    H,
    L,
    D8,
    HLI,
}

/// Destination of a byte load: a register or the byte at HL.
#[derive(Clone, Copy, Debug, PartialEq, Eq, Structural)]
pub enum LoadByteTarget {
    A,
    B,
    C,
    D,
    E,
    H,
    L,
    HLI,
}

/// Destination of a 16-bit immediate load.
#[derive(Clone, Copy, Debug, PartialEq, Eq, Structural)]
pub enum LoadWordTarget {
    BC,
    DE,
    HL,
    SP,
}

/// Addressing modes of the loads between A and memory: through a register
/// pair, through HL with post-increment or post-decrement, through a 16-bit
/// immediate address, or through 0xFF00 + C.
#[derive(Clone, Copy, Debug, PartialEq, Eq, Structural)]
pub enum Indirect {
    BCIndirect,
    DEIndirect,
    HLIndirectPlus,
    HLIndirectMinus,
    WordIndirect,
    LastByteIndirect,
}

/// The register pair moved by PUSH and POP.
#[derive(Clone, Copy, Debug, PartialEq, Eq, Structural)]
pub enum StackTarget {
    AF,
    BC,
    DE,
    HL,
}

/// Condition of the conditional jumps, calls and returns.
#[derive(Clone, Copy, Debug, PartialEq, Eq, Structural)]
pub enum JumpTest {
    NotZero,
    Zero,
    NotCarry,
    Carry,
    Always,
}

/// Operand of a 0xCB-prefixed operation: a register or the byte at HL.
#[derive(Clone, Copy, Debug, PartialEq, Eq, Structural)]
pub enum PrefixTarget {
    A,
    B,
    C,
    D,
    E,
    H,
    L,
    HLI,
}

/// A bit index 0..=7, as selected by the BIT, RES and SET opcodes.
#[derive(Clone, Copy, Debug, PartialEq, Eq, Structural)]
pub enum BitPosition {
    B0,
    B1,
    B2,
    B3,
    B4,
    B5,
    B6,
    B7,
}

impl BitPosition {
    pub open spec fn index_spec(self) -> u8 {
        match self {
            BitPosition::B0 => 0u8,
            BitPosition::B1 => 1u8,
            BitPosition::B2 => 2u8,
            BitPosition::B3 => 3u8,
            BitPosition::B4 => 4u8,
            BitPosition::B5 => 5u8,
            BitPosition::B6 => 6u8,
            BitPosition::B7 => 7u8,
        }
    }

    /// The bit index as a number.
    pub fn index(self) -> (r: u8)
        ensures
            r == self.index_spec(),
    {
        match self {
            BitPosition::B0 => 0,
            BitPosition::B1 => 1,
            BitPosition::B2 => 2,
            BitPosition::B3 => 3,
            BitPosition::B4 => 4,
            BitPosition::B5 => 5,
            BitPosition::B6 => 6,
            BitPosition::B7 => 7,
        }
    }
}

/// The eight fixed RST jump vectors.
#[derive(Clone, Copy, Debug, PartialEq, Eq, Structural)]
pub enum RstLocation {
    Rst00,
    Rst08,
    Rst10,
    Rst18,
    Rst20,
    Rst28,
    Rst30,
    Rst38,
}

impl RstLocation {
    pub open spec fn address_spec(self) -> u16 {
        match self {
            RstLocation::Rst00 => 0x00u16,
            RstLocation::Rst08 => 0x08u16,
            RstLocation::Rst10 => 0x10u16,
            RstLocation::Rst18 => 0x18u16,
            RstLocation::Rst20 => 0x20u16,
            RstLocation::Rst28 => 0x28u16,
            RstLocation::Rst30 => 0x30u16,
            RstLocation::Rst38 => 0x38u16,
        }
    }

    /// The address this vector jumps to.
    pub fn address(self) -> (r: u16)
        ensures
            r == self.address_spec(),
    {
        match self {
            RstLocation::Rst00 => 0x00,
            RstLocation::Rst08 => 0x08,
            RstLocation::Rst10 => 0x10,
            RstLocation::Rst18 => 0x18,
            RstLocation::Rst20 => 0x20,
            RstLocation::Rst28 => 0x28,
            RstLocation::Rst30 => 0x30,
            RstLocation::Rst38 => 0x38,
        }
    }
}

/// The kinds of loads reached through the LD opcodes.
#[derive(Clone, Copy, Debug, PartialEq, Eq, Structural)]
pub enum LoadType {
    Byte(LoadByteTarget, LoadByteSource),
    Word(LoadWordTarget),
    AFromIndirect(Indirect),
    IndirectFromA(Indirect),
    ByteAddressFromA,
    AFromByteAddress,
    SPFromHL,
    IndirectFromSP,
    HLFromSPN,
}

#[derive(Clone, Copy, Debug, PartialEq, Eq, Structural)]
pub enum Instruction {
    ADD(ArithmeticTarget),
    ADC(ArithmeticTarget),
    SUB(ArithmeticTarget),
    SBC(ArithmeticTarget),
    AND(ArithmeticTarget),
    OR(ArithmeticTarget),
    XOR(ArithmeticTarget),
    CP(ArithmeticTarget),
    INC(IncDecTarget),
    DEC(IncDecTarget),
    DAA,
    CPL,
    ADDHL(ADDHLTarget),
    ADDSP,
    CCF,
    SCF,
    RLCA,
    RRCA,
    RLA,
    RRA,
    LD(LoadType),
    JP(JumpTest),
    JR(JumpTest),
    JPI,
    PUSH(StackTarget),
    POP(StackTarget),
    CALL(JumpTest),
    RET(JumpTest),
    RETI,
    RST(RstLocation),
    NOP,
    HALT,
    STOP,
    DI,
    EI,
    BIT(PrefixTarget, BitPosition),
    RES(PrefixTarget, BitPosition),
    SET(PrefixTarget, BitPosition),
    SRL(PrefixTarget),
    RR(PrefixTarget),
    RL(PrefixTarget),
    RRC(PrefixTarget),
    RLC(PrefixTarget),
    SRA(PrefixTarget),
    SLA(PrefixTarget),
    SWAP(PrefixTarget),
}

/// The target named by the low three bits of a 0xCB-prefixed opcode.
pub open spec fn prefix_target_of(bits: u8) -> PrefixTarget {
    if bits == 0 {
        PrefixTarget::B
    } else if bits == 1 {
        PrefixTarget::C
    } else if bits == 2 {
        PrefixTarget::D
    } else if bits == 3 {
        PrefixTarget::E
    } else if bits == 4 {
        PrefixTarget::H
    } else if bits == 5 {
        PrefixTarget::L
    } else if bits == 6 {
        PrefixTarget::HLI
    } else {
        PrefixTarget::A
    }
}

/// The bit position named by bits 3..=5 of a BIT, RES or SET opcode.
pub open spec fn bit_position_of(bits: u8) -> BitPosition {
    if bits == 0 {
        BitPosition::B0
    } else if bits == 1 {
        BitPosition::B1
    } else if bits == 2 {
        BitPosition::B2
    } else if bits == 3 {
        BitPosition::B3
    } else if bits == 4 {
        BitPosition::B4
    } else if bits == 5 {
        BitPosition::B5
    } else if bits == 6 {
        BitPosition::B6
    } else {
        BitPosition::B7
    }
}

/// The 0xCB-prefixed table: every byte decodes. The byte divides into an
/// operation (high five bits) and a target (low three bits).
pub open spec fn decode_prefixed(byte: u8) -> Instruction {
    let t = prefix_target_of(byte % 8);
    let op = byte / 8;
    if op == 0 {
        Instruction::RLC(t)
    } else if op == 1 {
        Instruction::RRC(t)
    } else if op == 2 {
        Instruction::RL(t)
    } else if op == 3 {
        Instruction::RR(t)
    } else if op == 4 {
        Instruction::SLA(t)
    } else if op == 5 {
        Instruction::SRA(t)
    } else if op == 6 {
        Instruction::SWAP(t)
    } else if op == 7 {
        Instruction::SRL(t)
    } else if op < 16 {
        Instruction::BIT(t, bit_position_of(op % 8))
    } else if op < 24 {
        Instruction::RES(t, bit_position_of(op % 8))
    } else {
        Instruction::SET(t, bit_position_of(op % 8))
    }
}

/// True of the eleven primary opcodes that the LR35902 leaves undefined.
pub open spec fn is_illegal_opcode(byte: u8) -> bool {
    byte == 0xD3 || byte == 0xDB || byte == 0xDD || byte == 0xE3 || byte == 0xE4 || byte == 0xEB
        || byte == 0xEC || byte == 0xED || byte == 0xF4 || byte == 0xFC || byte == 0xFD
}

/// What a fetched byte decodes to. An unprefixed byte fails to decode exactly
/// when it is one of the eleven illegal opcodes or the prefix byte 0xCB
/// itself; every prefixed byte decodes.
pub open spec fn decode(byte: u8, prefixed: bool) -> Option<Instruction> {
    if prefixed {
        Some(decode_prefixed(byte))
    } else {
        decode_unprefixed(byte)
    }
}

impl Instruction {
    /// Look an opcode byte up in the primary table or, after the 0xCB
    /// prefix, in the prefixed table. Has no side effects and consumes no
    /// bytes.
    pub fn from_byte(byte: u8, prefixed: bool) -> (r: Option<Instruction>)
        ensures
            r == decode(byte, prefixed),
            prefixed ==> r is Some,
            !prefixed ==> ((r is None) <==> (is_illegal_opcode(byte) || byte == 0xCB)),
    {
        proof {
            lemma_unprefixed_legality(byte);
        }
        if prefixed {
            Some(Self::from_byte_prefixed(byte))
        } else {
            Self::from_byte_not_prefixed(byte)
        }
    }

    /// Decode a byte fetched after the 0xCB prefix.
    pub fn from_byte_prefixed(byte: u8) -> (r: Instruction)
        ensures
            r == decode_prefixed(byte),
    {
        let t = match byte % 8 {
            0 => PrefixTarget::B,
            1 => PrefixTarget::C,
            2 => PrefixTarget::D,
            3 => PrefixTarget::E,
            4 => PrefixTarget::H,
            5 => PrefixTarget::L,
            6 => PrefixTarget::HLI,
            _ => PrefixTarget::A,
        };
        let op = byte / 8;
        if op < 8 {
            match op {
                0 => Instruction::RLC(t),
                1 => Instruction::RRC(t),
                2 => Instruction::RL(t),
                3 => Instruction::RR(t),
                4 => Instruction::SLA(t),
                5 => Instruction::SRA(t),
                6 => Instruction::SWAP(t),
                _ => Instruction::SRL(t),
            }
        } else {
            let bit = match op % 8 {
                0 => BitPosition::B0,
                1 => BitPosition::B1,
                2 => BitPosition::B2,
                3 => BitPosition::B3,
                4 => BitPosition::B4,
                5 => BitPosition::B5,
                6 => BitPosition::B6,
                _ => BitPosition::B7,
            };
            if op < 16 {
                Instruction::BIT(t, bit)
            } else if op < 24 {
                Instruction::RES(t, bit)
            } else {
                Instruction::SET(t, bit)
            }
        }
    }
}

/// An unprefixed byte decodes exactly when it is neither an illegal opcode
/// nor the prefix byte.
pub proof fn lemma_unprefixed_legality(byte: u8)
    ensures
        (decode_unprefixed(byte) is None) <==> (is_illegal_opcode(byte) || byte == 0xCB),
{
}


/// The primary (unprefixed) opcode table.
pub open spec fn decode_unprefixed(byte: u8) -> Option<Instruction> {
    match byte {
            0x00u8 => Some(Instruction::NOP),
            0x01u8 => Some(Instruction::LD(LoadType::Word(LoadWordTarget::BC))),
            0x02u8 => Some(Instruction::LD(LoadType::IndirectFromA(Indirect::BCIndirect))),
            0x03u8 => Some(Instruction::INC(IncDecTarget::BC)),
            0x04u8 => Some(Instruction::INC(IncDecTarget::B)),
            0x05u8 => Some(Instruction::DEC(IncDecTarget::B)),
            0x06u8 => Some(Instruction::LD(LoadType::Byte(LoadByteTarget::B, LoadByteSource::D8))),
            0x07u8 => Some(Instruction::RLCA),
            0x08u8 => Some(Instruction::LD(LoadType::IndirectFromSP)),
            0x09u8 => Some(Instruction::ADDHL(ADDHLTarget::BC)),
            0x0Au8 => Some(Instruction::LD(LoadType::AFromIndirect(Indirect::BCIndirect))),
            0x0Bu8 => Some(Instruction::DEC(IncDecTarget::BC)),
            0x0Cu8 => Some(Instruction::INC(IncDecTarget::C)),
            0x0Du8 => Some(Instruction::DEC(IncDecTarget::C)),
            0x0Eu8 => Some(Instruction::LD(LoadType::Byte(LoadByteTarget::C, LoadByteSource::D8))),
            0x0Fu8 => Some(Instruction::RRCA),
            0x10u8 => Some(Instruction::STOP),
            0x11u8 => Some(Instruction::LD(LoadType::Word(LoadWordTarget::DE))),
            0x12u8 => Some(Instruction::LD(LoadType::IndirectFromA(Indirect::DEIndirect))),
            0x13u8 => Some(Instruction::INC(IncDecTarget::DE)),
            0x14u8 => Some(Instruction::INC(IncDecTarget::D)),
            0x15u8 => Some(Instruction::DEC(IncDecTarget::D)),
            0x16u8 => Some(Instruction::LD(LoadType::Byte(LoadByteTarget::D, LoadByteSource::D8))),
            0x17u8 => Some(Instruction::RLA),
            0x18u8 => Some(Instruction::JR(JumpTest::Always)),
            0x19u8 => Some(Instruction::ADDHL(ADDHLTarget::DE)),
            0x1Au8 => Some(Instruction::LD(LoadType::AFromIndirect(Indirect::DEIndirect))),
            0x1Bu8 => Some(Instruction::DEC(IncDecTarget::DE)),
            0x1Cu8 => Some(Instruction::INC(IncDecTarget::E)),
            0x1Du8 => Some(Instruction::DEC(IncDecTarget::E)),
            0x1Eu8 => Some(Instruction::LD(LoadType::Byte(LoadByteTarget::E, LoadByteSource::D8))),
            0x1Fu8 => Some(Instruction::RRA),
            0x20u8 => Some(Instruction::JR(JumpTest::NotZero)),
            0x21u8 => Some(Instruction::LD(LoadType::Word(LoadWordTarget::HL))),
            0x22u8 => Some(Instruction::LD(LoadType::IndirectFromA(Indirect::HLIndirectPlus))),
            0x23u8 => Some(Instruction::INC(IncDecTarget::HL)),
            0x24u8 => Some(Instruction::INC(IncDecTarget::H)),
            0x25u8 => Some(Instruction::DEC(IncDecTarget::H)),
            0x26u8 => Some(Instruction::LD(LoadType::Byte(LoadByteTarget::H, LoadByteSource::D8))),
            0x27u8 => Some(Instruction::DAA),
            0x28u8 => Some(Instruction::JR(JumpTest::Zero)),
            0x29u8 => Some(Instruction::ADDHL(ADDHLTarget::HL)),
            0x2Au8 => Some(Instruction::LD(LoadType::AFromIndirect(Indirect::HLIndirectPlus))),
            0x2Bu8 => Some(Instruction::DEC(IncDecTarget::HL)),
            0x2Cu8 => Some(Instruction::INC(IncDecTarget::L)),
            0x2Du8 => Some(Instruction::DEC(IncDecTarget::L)),
            0x2Eu8 => Some(Instruction::LD(LoadType::Byte(LoadByteTarget::L, LoadByteSource::D8))),
            0x2Fu8 => Some(Instruction::CPL),
            0x30u8 => Some(Instruction::JR(JumpTest::NotCarry)),
            0x31u8 => Some(Instruction::LD(LoadType::Word(LoadWordTarget::SP))),
            0x32u8 => Some(Instruction::LD(LoadType::IndirectFromA(Indirect::HLIndirectMinus))),
            0x33u8 => Some(Instruction::INC(IncDecTarget::SP)),
            0x34u8 => Some(Instruction::INC(IncDecTarget::HLI)),
            0x35u8 => Some(Instruction::DEC(IncDecTarget::HLI)),
            0x36u8 => Some(Instruction::LD(LoadType::Byte(LoadByteTarget::HLI, LoadByteSource::D8))),
            0x37u8 => Some(Instruction::SCF),
            0x38u8 => Some(Instruction::JR(JumpTest::Carry)),
            0x39u8 => Some(Instruction::ADDHL(ADDHLTarget::SP)),
            0x3Au8 => Some(Instruction::LD(LoadType::AFromIndirect(Indirect::HLIndirectMinus))),
            0x3Bu8 => Some(Instruction::DEC(IncDecTarget::SP)),
            0x3Cu8 => Some(Instruction::INC(IncDecTarget::A)),
            0x3Du8 => Some(Instruction::DEC(IncDecTarget::A)),
            0x3Eu8 => Some(Instruction::LD(LoadType::Byte(LoadByteTarget::A, LoadByteSource::D8))),
            0x3Fu8 => Some(Instruction::CCF),
            0x40u8 => Some(Instruction::LD(LoadType::Byte(LoadByteTarget::B, LoadByteSource::B))),
            0x41u8 => Some(Instruction::LD(LoadType::Byte(LoadByteTarget::B, LoadByteSource::C))),
            0x42u8 => Some(Instruction::LD(LoadType::Byte(LoadByteTarget::B, LoadByteSource::D))),
            0x43u8 => Some(Instruction::LD(LoadType::Byte(LoadByteTarget::B, LoadByteSource::E))),
            0x44u8 => Some(Instruction::LD(LoadType::Byte(LoadByteTarget::B, LoadByteSource::H))),
            0x45u8 => Some(Instruction::LD(LoadType::Byte(LoadByteTarget::B, LoadByteSource::L))),
            0x46u8 => Some(Instruction::LD(LoadType::Byte(LoadByteTarget::B, LoadByteSource::HLI))),
            0x47u8 => Some(Instruction::LD(LoadType::Byte(LoadByteTarget::B, LoadByteSource::A))),
            0x48u8 => Some(Instruction::LD(LoadType::Byte(LoadByteTarget::C, LoadByteSource::B))),
            0x49u8 => Some(Instruction::LD(LoadType::Byte(LoadByteTarget::C, LoadByteSource::C))),
            0x4Au8 => Some(Instruction::LD(LoadType::Byte(LoadByteTarget::C, LoadByteSource::D))),
            0x4Bu8 => Some(Instruction::LD(LoadType::Byte(LoadByteTarget::C, LoadByteSource::E))),
            0x4Cu8 => Some(Instruction::LD(LoadType::Byte(LoadByteTarget::C, LoadByteSource::H))),
            0x4Du8 => Some(Instruction::LD(LoadType::Byte(LoadByteTarget::C, LoadByteSource::L))),
            0x4Eu8 => Some(Instruction::LD(LoadType::Byte(LoadByteTarget::C, LoadByteSource::HLI))),
            0x4Fu8 => Some(Instruction::LD(LoadType::Byte(LoadByteTarget::C, LoadByteSource::A))),
            0x50u8 => Some(Instruction::LD(LoadType::Byte(LoadByteTarget::D, LoadByteSource::B))),
            0x51u8 => Some(Instruction::LD(LoadType::Byte(LoadByteTarget::D, LoadByteSource::C))),
            0x52u8 => Some(Instruction::LD(LoadType::Byte(LoadByteTarget::D, LoadByteSource::D))),
            0x53u8 => Some(Instruction::LD(LoadType::Byte(LoadByteTarget::D, LoadByteSource::E))),
            0x54u8 => Some(Instruction::LD(LoadType::Byte(LoadByteTarget::D, LoadByteSource::H))),
            0x55u8 => Some(Instruction::LD(LoadType::Byte(LoadByteTarget::D, LoadByteSource::L))),
            0x56u8 => Some(Instruction::LD(LoadType::Byte(LoadByteTarget::D, LoadByteSource::HLI))),
            0x57u8 => Some(Instruction::LD(LoadType::Byte(LoadByteTarget::D, LoadByteSource::A))),
            0x58u8 => Some(Instruction::LD(LoadType::Byte(LoadByteTarget::E, LoadByteSource::B))),
            0x59u8 => Some(Instruction::LD(LoadType::Byte(LoadByteTarget::E, LoadByteSource::C))),
            0x5Au8 => Some(Instruction::LD(LoadType::Byte(LoadByteTarget::E, LoadByteSource::D))),
            0x5Bu8 => Some(Instruction::LD(LoadType::Byte(LoadByteTarget::E, LoadByteSource::E))),
            0x5Cu8 => Some(Instruction::LD(LoadType::Byte(LoadByteTarget::E, LoadByteSource::H))),
            0x5Du8 => Some(Instruction::LD(LoadType::Byte(LoadByteTarget::E, LoadByteSource::L))),
            0x5Eu8 => Some(Instruction::LD(LoadType::Byte(LoadByteTarget::E, LoadByteSource::HLI))),
            0x5Fu8 => Some(Instruction::LD(LoadType::Byte(LoadByteTarget::E, LoadByteSource::A))),
            0x60u8 => Some(Instruction::LD(LoadType::Byte(LoadByteTarget::H, LoadByteSource::B))),
            0x61u8 => Some(Instruction::LD(LoadType::Byte(LoadByteTarget::H, LoadByteSource::C))),
            0x62u8 => Some(Instruction::LD(LoadType::Byte(LoadByteTarget::H, LoadByteSource::D))),
            0x63u8 => Some(Instruction::LD(LoadType::Byte(LoadByteTarget::H, LoadByteSource::E))),
            0x64u8 => Some(Instruction::LD(LoadType::Byte(LoadByteTarget::H, LoadByteSource::H))),
            0x65u8 => Some(Instruction::LD(LoadType::Byte(LoadByteTarget::H, LoadByteSource::L))),
            0x66u8 => Some(Instruction::LD(LoadType::Byte(LoadByteTarget::H, LoadByteSource::HLI))),
            0x67u8 => Some(Instruction::LD(LoadType::Byte(LoadByteTarget::H, LoadByteSource::A))),
            0x68u8 => Some(Instruction::LD(LoadType::Byte(LoadByteTarget::L, LoadByteSource::B))),
            0x69u8 => Some(Instruction::LD(LoadType::Byte(LoadByteTarget::L, LoadByteSource::C))),
            0x6Au8 => Some(Instruction::LD(LoadType::Byte(LoadByteTarget::L, LoadByteSource::D))),
            0x6Bu8 => Some(Instruction::LD(LoadType::Byte(LoadByteTarget::L, LoadByteSource::E))),
            0x6Cu8 => Some(Instruction::LD(LoadType::Byte(LoadByteTarget::L, LoadByteSource::H))),
            0x6Du8 => Some(Instruction::LD(LoadType::Byte(LoadByteTarget::L, LoadByteSource::L))),
            0x6Eu8 => Some(Instruction::LD(LoadType::Byte(LoadByteTarget::L, LoadByteSource::HLI))),
            0x6Fu8 => Some(Instruction::LD(LoadType::Byte(LoadByteTarget::L, LoadByteSource::A))),
            0x70u8 => Some(Instruction::LD(LoadType::Byte(LoadByteTarget::HLI, LoadByteSource::B))),
            0x71u8 => Some(Instruction::LD(LoadType::Byte(LoadByteTarget::HLI, LoadByteSource::C))),
            0x72u8 => Some(Instruction::LD(LoadType::Byte(LoadByteTarget::HLI, LoadByteSource::D))),
            0x73u8 => Some(Instruction::LD(LoadType::Byte(LoadByteTarget::HLI, LoadByteSource::E))),
            0x74u8 => Some(Instruction::LD(LoadType::Byte(LoadByteTarget::HLI, LoadByteSource::H))),
            0x75u8 => Some(Instruction::LD(LoadType::Byte(LoadByteTarget::HLI, LoadByteSource::L))),
            0x76u8 => Some(Instruction::HALT),
            0x77u8 => Some(Instruction::LD(LoadType::Byte(LoadByteTarget::HLI, LoadByteSource::A))),
            0x78u8 => Some(Instruction::LD(LoadType::Byte(LoadByteTarget::A, LoadByteSource::B))),
            0x79u8 => Some(Instruction::LD(LoadType::Byte(LoadByteTarget::A, LoadByteSource::C))),
            0x7Au8 => Some(Instruction::LD(LoadType::Byte(LoadByteTarget::A, LoadByteSource::D))),
            0x7Bu8 => Some(Instruction::LD(LoadType::Byte(LoadByteTarget::A, LoadByteSource::E))),
            0x7Cu8 => Some(Instruction::LD(LoadType::Byte(LoadByteTarget::A, LoadByteSource::H))),
            0x7Du8 => Some(Instruction::LD(LoadType::Byte(LoadByteTarget::A, LoadByteSource::L))),
            0x7Eu8 => Some(Instruction::LD(LoadType::Byte(LoadByteTarget::A, LoadByteSource::HLI))),
            0x7Fu8 => Some(Instruction::LD(LoadType::Byte(LoadByteTarget::A, LoadByteSource::A))),
            0x80u8 => Some(Instruction::ADD(ArithmeticTarget::B)),
            0x81u8 => Some(Instruction::ADD(ArithmeticTarget::C)),
            0x82u8 => Some(Instruction::ADD(ArithmeticTarget::D)),
            0x83u8 => Some(Instruction::ADD(ArithmeticTarget::E)),
            0x84u8 => Some(Instruction::ADD(ArithmeticTarget::H)),
            0x85u8 => Some(Instruction::ADD(ArithmeticTarget::L)),
            0x86u8 => Some(Instruction::ADD(ArithmeticTarget::HLI)),
            0x87u8 => Some(Instruction::ADD(ArithmeticTarget::A)),
            0x88u8 => Some(Instruction::ADC(ArithmeticTarget::B)),
            0x89u8 => Some(Instruction::ADC(ArithmeticTarget::C)),
            0x8Au8 => Some(Instruction::ADC(ArithmeticTarget::D)),
            0x8Bu8 => Some(Instruction::ADC(ArithmeticTarget::E)),
            0x8Cu8 => Some(Instruction::ADC(ArithmeticTarget::H)),
            0x8Du8 => Some(Instruction::ADC(ArithmeticTarget::L)),
            0x8Eu8 => Some(Instruction::ADC(ArithmeticTarget::HLI)),
            0x8Fu8 => Some(Instruction::ADC(ArithmeticTarget::A)),
            0x90u8 => Some(Instruction::SUB(ArithmeticTarget::B)),
            0x91u8 => Some(Instruction::SUB(ArithmeticTarget::C)),
            0x92u8 => Some(Instruction::SUB(ArithmeticTarget::D)),
            0x93u8 => Some(Instruction::SUB(ArithmeticTarget::E)),
            0x94u8 => Some(Instruction::SUB(ArithmeticTarget::H)),
            0x95u8 => Some(Instruction::SUB(ArithmeticTarget::L)),
            0x96u8 => Some(Instruction::SUB(ArithmeticTarget::HLI)),
            0x97u8 => Some(Instruction::SUB(ArithmeticTarget::A)),
            0x98u8 => Some(Instruction::SBC(ArithmeticTarget::B)),
            0x99u8 => Some(Instruction::SBC(ArithmeticTarget::C)),
            0x9Au8 => Some(Instruction::SBC(ArithmeticTarget::D)),
            0x9Bu8 => Some(Instruction::SBC(ArithmeticTarget::E)),
            0x9Cu8 => Some(Instruction::SBC(ArithmeticTarget::H)),
            0x9Du8 => Some(Instruction::SBC(ArithmeticTarget::L)),
            0x9Eu8 => Some(Instruction::SBC(ArithmeticTarget::HLI)),
            0x9Fu8 => Some(Instruction::SBC(ArithmeticTarget::A)),
            0xA0u8 => Some(Instruction::AND(ArithmeticTarget::B)),
            0xA1u8 => Some(Instruction::AND(ArithmeticTarget::C)),
            0xA2u8 => Some(Instruction::AND(ArithmeticTarget::D)),
            0xA3u8 => Some(Instruction::AND(ArithmeticTarget::E)),
            0xA4u8 => Some(Instruction::AND(ArithmeticTarget::H)),
            0xA5u8 => Some(Instruction::AND(ArithmeticTarget::L)),
            0xA6u8 => Some(Instruction::AND(ArithmeticTarget::HLI)),
            0xA7u8 => Some(Instruction::AND(ArithmeticTarget::A)),
            0xA8u8 => Some(Instruction::XOR(ArithmeticTarget::B)),
            0xA9u8 => Some(Instruction::XOR(ArithmeticTarget::C)),
            0xAAu8 => Some(Instruction::XOR(ArithmeticTarget::D)),
            0xABu8 => Some(Instruction::XOR(ArithmeticTarget::E)),
            0xACu8 => Some(Instruction::XOR(ArithmeticTarget::H)),
            0xADu8 => Some(Instruction::XOR(ArithmeticTarget::L)),
            0xAEu8 => Some(Instruction::XOR(ArithmeticTarget::HLI)),
            0xAFu8 => Some(Instruction::XOR(ArithmeticTarget::A)),
            0xB0u8 => Some(Instruction::OR(ArithmeticTarget::B)),
            0xB1u8 => Some(Instruction::OR(ArithmeticTarget::C)),
            0xB2u8 => Some(Instruction::OR(ArithmeticTarget::D)),
            0xB3u8 => Some(Instruction::OR(ArithmeticTarget::E)),
            0xB4u8 => Some(Instruction::OR(ArithmeticTarget::H)),
            0xB5u8 => Some(Instruction::OR(ArithmeticTarget::L)),
            0xB6u8 => Some(Instruction::OR(ArithmeticTarget::HLI)),
            0xB7u8 => Some(Instruction::OR(ArithmeticTarget::A)),
            0xB8u8 => Some(Instruction::CP(ArithmeticTarget::B)),
            0xB9u8 => Some(Instruction::CP(ArithmeticTarget::C)),
            0xBAu8 => Some(Instruction::CP(ArithmeticTarget::D)),
            0xBBu8 => Some(Instruction::CP(ArithmeticTarget::E)),
            0xBCu8 => Some(Instruction::CP(ArithmeticTarget::H)),
            0xBDu8 => Some(Instruction::CP(ArithmeticTarget::L)),
            0xBEu8 => Some(Instruction::CP(ArithmeticTarget::HLI)),
            0xBFu8 => Some(Instruction::CP(ArithmeticTarget::A)),
            0xC0u8 => Some(Instruction::RET(JumpTest::NotZero)),
            0xC1u8 => Some(Instruction::POP(StackTarget::BC)),
            0xC2u8 => Some(Instruction::JP(JumpTest::NotZero)),
            0xC3u8 => Some(Instruction::JP(JumpTest::Always)),
            0xC4u8 => Some(Instruction::CALL(JumpTest::NotZero)),
            0xC5u8 => Some(Instruction::PUSH(StackTarget::BC)),
            0xC6u8 => Some(Instruction::ADD(ArithmeticTarget::D8)),
            0xC7u8 => Some(Instruction::RST(RstLocation::Rst00)),
            0xC8u8 => Some(Instruction::RET(JumpTest::Zero)),
            0xC9u8 => Some(Instruction::RET(JumpTest::Always)),
            0xCAu8 => Some(Instruction::JP(JumpTest::Zero)),
            0xCCu8 => Some(Instruction::CALL(JumpTest::Zero)),
            0xCDu8 => Some(Instruction::CALL(JumpTest::Always)),
            0xCEu8 => Some(Instruction::ADC(ArithmeticTarget::D8)),
            0xCFu8 => Some(Instruction::RST(RstLocation::Rst08)),
            0xD0u8 => Some(Instruction::RET(JumpTest::NotCarry)),
            0xD1u8 => Some(Instruction::POP(StackTarget::DE)),
            0xD2u8 => Some(Instruction::JP(JumpTest::NotCarry)),
            0xD4u8 => Some(Instruction::CALL(JumpTest::NotCarry)),
            0xD5u8 => Some(Instruction::PUSH(StackTarget::DE)),
            0xD6u8 => Some(Instruction::SUB(ArithmeticTarget::D8)),
            0xD7u8 => Some(Instruction::RST(RstLocation::Rst10)),
            0xD8u8 => Some(Instruction::RET(JumpTest::Carry)),
            0xD9u8 => Some(Instruction::RETI),
            0xDAu8 => Some(Instruction::JP(JumpTest::Carry)),
            0xDCu8 => Some(Instruction::CALL(JumpTest::Carry)),
            0xDEu8 => Some(Instruction::SBC(ArithmeticTarget::D8)),
            0xDFu8 => Some(Instruction::RST(RstLocation::Rst18)),
            0xE0u8 => Some(Instruction::LD(LoadType::ByteAddressFromA)),
            0xE1u8 => Some(Instruction::POP(StackTarget::HL)),
            0xE2u8 => Some(Instruction::LD(LoadType::IndirectFromA(Indirect::LastByteIndirect))),
            0xE5u8 => Some(Instruction::PUSH(StackTarget::HL)),
            0xE6u8 => Some(Instruction::AND(ArithmeticTarget::D8)),
            0xE7u8 => Some(Instruction::RST(RstLocation::Rst20)),
            0xE8u8 => Some(Instruction::ADDSP),
            0xE9u8 => Some(Instruction::JPI),
            0xEAu8 => Some(Instruction::LD(LoadType::IndirectFromA(Indirect::WordIndirect))),
            0xEEu8 => Some(Instruction::XOR(ArithmeticTarget::D8)),
            0xEFu8 => Some(Instruction::RST(RstLocation::Rst28)),
            0xF0u8 => Some(Instruction::LD(LoadType::AFromByteAddress)),
            0xF1u8 => Some(Instruction::POP(StackTarget::AF)),
            0xF2u8 => Some(Instruction::LD(LoadType::AFromIndirect(Indirect::LastByteIndirect))),
            0xF3u8 => Some(Instruction::DI),
            0xF5u8 => Some(Instruction::PUSH(StackTarget::AF)),
            0xF6u8 => Some(Instruction::OR(ArithmeticTarget::D8)),
            0xF7u8 => Some(Instruction::RST(RstLocation::Rst30)),
            0xF8u8 => Some(Instruction::LD(LoadType::HLFromSPN)),
            0xF9u8 => Some(Instruction::LD(LoadType::SPFromHL)),
            0xFAu8 => Some(Instruction::LD(LoadType::AFromIndirect(Indirect::WordIndirect))),
            0xFBu8 => Some(Instruction::EI),
            0xFEu8 => Some(Instruction::CP(ArithmeticTarget::D8)),
            0xFFu8 => Some(Instruction::RST(RstLocation::Rst38)),
            _ => None,
    }
}

impl Instruction {
    /// Decode a byte from the primary (unprefixed) opcode table.
    pub fn from_byte_not_prefixed(byte: u8) -> (r: Option<Instruction>)
        ensures
            r == decode_unprefixed(byte),
    {
        match byte {
                0x00u8 => Some(Instruction::NOP),
                0x01u8 => Some(Instruction::LD(LoadType::Word(LoadWordTarget::BC))),
                0x02u8 => Some(Instruction::LD(LoadType::IndirectFromA(Indirect::BCIndirect))),
                0x03u8 => Some(Instruction::INC(IncDecTarget::BC)),
                0x04u8 => Some(Instruction::INC(IncDecTarget::B)),
                0x05u8 => Some(Instruction::DEC(IncDecTarget::B)),
                0x06u8 => Some(Instruction::LD(LoadType::Byte(LoadByteTarget::B, LoadByteSource::D8))),
                0x07u8 => Some(Instruction::RLCA),
                0x08u8 => Some(Instruction::LD(LoadType::IndirectFromSP)),
                0x09u8 => Some(Instruction::ADDHL(ADDHLTarget::BC)),
                0x0Au8 => Some(Instruction::LD(LoadType::AFromIndirect(Indirect::BCIndirect))),
                0x0Bu8 => Some(Instruction::DEC(IncDecTarget::BC)),
                0x0Cu8 => Some(Instruction::INC(IncDecTarget::C)),
                0x0Du8 => Some(Instruction::DEC(IncDecTarget::C)),
                0x0Eu8 => Some(Instruction::LD(LoadType::Byte(LoadByteTarget::C, LoadByteSource::D8))),
                0x0Fu8 => Some(Instruction::RRCA),
                0x10u8 => Some(Instruction::STOP),
                0x11u8 => Some(Instruction::LD(LoadType::Word(LoadWordTarget::DE))),
                0x12u8 => Some(Instruction::LD(LoadType::IndirectFromA(Indirect::DEIndirect))),
                0x13u8 => Some(Instruction::INC(IncDecTarget::DE)),
                0x14u8 => Some(Instruction::INC(IncDecTarget::D)),
                0x15u8 => Some(Instruction::DEC(IncDecTarget::D)),
                0x16u8 => Some(Instruction::LD(LoadType::Byte(LoadByteTarget::D, LoadByteSource::D8))),
                0x17u8 => Some(Instruction::RLA),
                0x18u8 => Some(Instruction::JR(JumpTest::Always)),
                0x19u8 => Some(Instruction::ADDHL(ADDHLTarget::DE)),
                0x1Au8 => Some(Instruction::LD(LoadType::AFromIndirect(Indirect::DEIndirect))),
                0x1Bu8 => Some(Instruction::DEC(IncDecTarget::DE)),
                0x1Cu8 => Some(Instruction::INC(IncDecTarget::E)),
                0x1Du8 => Some(Instruction::DEC(IncDecTarget::E)),
                0x1Eu8 => Some(Instruction::LD(LoadType::Byte(LoadByteTarget::E, LoadByteSource::D8))),
                0x1Fu8 => Some(Instruction::RRA),
                0x20u8 => Some(Instruction::JR(JumpTest::NotZero)),
                0x21u8 => Some(Instruction::LD(LoadType::Word(LoadWordTarget::HL))),
                0x22u8 => Some(Instruction::LD(LoadType::IndirectFromA(Indirect::HLIndirectPlus))),
                0x23u8 => Some(Instruction::INC(IncDecTarget::HL)),
                0x24u8 => Some(Instruction::INC(IncDecTarget::H)),
                0x25u8 => Some(Instruction::DEC(IncDecTarget::H)),
                0x26u8 => Some(Instruction::LD(LoadType::Byte(LoadByteTarget::H, LoadByteSource::D8))),
                0x27u8 => Some(Instruction::DAA),
                0x28u8 => Some(Instruction::JR(JumpTest::Zero)),
                0x29u8 => Some(Instruction::ADDHL(ADDHLTarget::HL)),
                0x2Au8 => Some(Instruction::LD(LoadType::AFromIndirect(Indirect::HLIndirectPlus))),
                0x2Bu8 => Some(Instruction::DEC(IncDecTarget::HL)),
                0x2Cu8 => Some(Instruction::INC(IncDecTarget::L)),
                0x2Du8 => Some(Instruction::DEC(IncDecTarget::L)),
                0x2Eu8 => Some(Instruction::LD(LoadType::Byte(LoadByteTarget::L, LoadByteSource::D8))),
                0x2Fu8 => Some(Instruction::CPL),
                0x30u8 => Some(Instruction::JR(JumpTest::NotCarry)),
                0x31u8 => Some(Instruction::LD(LoadType::Word(LoadWordTarget::SP))),
                0x32u8 => Some(Instruction::LD(LoadType::IndirectFromA(Indirect::HLIndirectMinus))),
                0x33u8 => Some(Instruction::INC(IncDecTarget::SP)),
                0x34u8 => Some(Instruction::INC(IncDecTarget::HLI)),
                0x35u8 => Some(Instruction::DEC(IncDecTarget::HLI)),
                0x36u8 => Some(Instruction::LD(LoadType::Byte(LoadByteTarget::HLI, LoadByteSource::D8))),
                0x37u8 => Some(Instruction::SCF),
                0x38u8 => Some(Instruction::JR(JumpTest::Carry)),
                0x39u8 => Some(Instruction::ADDHL(ADDHLTarget::SP)),
                0x3Au8 => Some(Instruction::LD(LoadType::AFromIndirect(Indirect::HLIndirectMinus))),
                0x3Bu8 => Some(Instruction::DEC(IncDecTarget::SP)),
                0x3Cu8 => Some(Instruction::INC(IncDecTarget::A)),
                0x3Du8 => Some(Instruction::DEC(IncDecTarget::A)),
                0x3Eu8 => Some(Instruction::LD(LoadType::Byte(LoadByteTarget::A, LoadByteSource::D8))),
                0x3Fu8 => Some(Instruction::CCF),
                0x40u8 => Some(Instruction::LD(LoadType::Byte(LoadByteTarget::B, LoadByteSource::B))),
                0x41u8 => Some(Instruction::LD(LoadType::Byte(LoadByteTarget::B, LoadByteSource::C))),
                0x42u8 => Some(Instruction::LD(LoadType::Byte(LoadByteTarget::B, LoadByteSource::D))),
                0x43u8 => Some(Instruction::LD(LoadType::Byte(LoadByteTarget::B, LoadByteSource::E))),
                0x44u8 => Some(Instruction::LD(LoadType::Byte(LoadByteTarget::B, LoadByteSource::H))),
                0x45u8 => Some(Instruction::LD(LoadType::Byte(LoadByteTarget::B, LoadByteSource::L))),
                0x46u8 => Some(Instruction::LD(LoadType::Byte(LoadByteTarget::B, LoadByteSource::HLI))),
                0x47u8 => Some(Instruction::LD(LoadType::Byte(LoadByteTarget::B, LoadByteSource::A))),
                0x48u8 => Some(Instruction::LD(LoadType::Byte(LoadByteTarget::C, LoadByteSource::B))),
                0x49u8 => Some(Instruction::LD(LoadType::Byte(LoadByteTarget::C, LoadByteSource::C))),
                0x4Au8 => Some(Instruction::LD(LoadType::Byte(LoadByteTarget::C, LoadByteSource::D))),
                0x4Bu8 => Some(Instruction::LD(LoadType::Byte(LoadByteTarget::C, LoadByteSource::E))),
                0x4Cu8 => Some(Instruction::LD(LoadType::Byte(LoadByteTarget::C, LoadByteSource::H))),
                0x4Du8 => Some(Instruction::LD(LoadType::Byte(LoadByteTarget::C, LoadByteSource::L))),
                0x4Eu8 => Some(Instruction::LD(LoadType::Byte(LoadByteTarget::C, LoadByteSource::HLI))),
                0x4Fu8 => Some(Instruction::LD(LoadType::Byte(LoadByteTarget::C, LoadByteSource::A))),
                0x50u8 => Some(Instruction::LD(LoadType::Byte(LoadByteTarget::D, LoadByteSource::B))),
                0x51u8 => Some(Instruction::LD(LoadType::Byte(LoadByteTarget::D, LoadByteSource::C))),
                0x52u8 => Some(Instruction::LD(LoadType::Byte(LoadByteTarget::D, LoadByteSource::D))),
                0x53u8 => Some(Instruction::LD(LoadType::Byte(LoadByteTarget::D, LoadByteSource::E))),
                0x54u8 => Some(Instruction::LD(LoadType::Byte(LoadByteTarget::D, LoadByteSource::H))),
                0x55u8 => Some(Instruction::LD(LoadType::Byte(LoadByteTarget::D, LoadByteSource::L))),
                0x56u8 => Some(Instruction::LD(LoadType::Byte(LoadByteTarget::D, LoadByteSource::HLI))),
                0x57u8 => Some(Instruction::LD(LoadType::Byte(LoadByteTarget::D, LoadByteSource::A))),
                0x58u8 => Some(Instruction::LD(LoadType::Byte(LoadByteTarget::E, LoadByteSource::B))),
                0x59u8 => Some(Instruction::LD(LoadType::Byte(LoadByteTarget::E, LoadByteSource::C))),
                0x5Au8 => Some(Instruction::LD(LoadType::Byte(LoadByteTarget::E, LoadByteSource::D))),
                0x5Bu8 => Some(Instruction::LD(LoadType::Byte(LoadByteTarget::E, LoadByteSource::E))),
                0x5Cu8 => Some(Instruction::LD(LoadType::Byte(LoadByteTarget::E, LoadByteSource::H))),
                0x5Du8 => Some(Instruction::LD(LoadType::Byte(LoadByteTarget::E, LoadByteSource::L))),
                0x5Eu8 => Some(Instruction::LD(LoadType::Byte(LoadByteTarget::E, LoadByteSource::HLI))),
                0x5Fu8 => Some(Instruction::LD(LoadType::Byte(LoadByteTarget::E, LoadByteSource::A))),
                0x60u8 => Some(Instruction::LD(LoadType::Byte(LoadByteTarget::H, LoadByteSource::B))),
                0x61u8 => Some(Instruction::LD(LoadType::Byte(LoadByteTarget::H, LoadByteSource::C))),
                0x62u8 => Some(Instruction::LD(LoadType::Byte(LoadByteTarget::H, LoadByteSource::D))),
                0x63u8 => Some(Instruction::LD(LoadType::Byte(LoadByteTarget::H, LoadByteSource::E))),
                0x64u8 => Some(Instruction::LD(LoadType::Byte(LoadByteTarget::H, LoadByteSource::H))),
                0x65u8 => Some(Instruction::LD(LoadType::Byte(LoadByteTarget::H, LoadByteSource::L))),
                0x66u8 => Some(Instruction::LD(LoadType::Byte(LoadByteTarget::H, LoadByteSource::HLI))),
                0x67u8 => Some(Instruction::LD(LoadType::Byte(LoadByteTarget::H, LoadByteSource::A))),
                0x68u8 => Some(Instruction::LD(LoadType::Byte(LoadByteTarget::L, LoadByteSource::B))),
                0x69u8 => Some(Instruction::LD(LoadType::Byte(LoadByteTarget::L, LoadByteSource::C))),
                0x6Au8 => Some(Instruction::LD(LoadType::Byte(LoadByteTarget::L, LoadByteSource::D))),
                0x6Bu8 => Some(Instruction::LD(LoadType::Byte(LoadByteTarget::L, LoadByteSource::E))),
                0x6Cu8 => Some(Instruction::LD(LoadType::Byte(LoadByteTarget::L, LoadByteSource::H))),
                0x6Du8 => Some(Instruction::LD(LoadType::Byte(LoadByteTarget::L, LoadByteSource::L))),
                0x6Eu8 => Some(Instruction::LD(LoadType::Byte(LoadByteTarget::L, LoadByteSource::HLI))),
                0x6Fu8 => Some(Instruction::LD(LoadType::Byte(LoadByteTarget::L, LoadByteSource::A))),
                0x70u8 => Some(Instruction::LD(LoadType::Byte(LoadByteTarget::HLI, LoadByteSource::B))),
                0x71u8 => Some(Instruction::LD(LoadType::Byte(LoadByteTarget::HLI, LoadByteSource::C))),
                0x72u8 => Some(Instruction::LD(LoadType::Byte(LoadByteTarget::HLI, LoadByteSource::D))),
                0x73u8 => Some(Instruction::LD(LoadType::Byte(LoadByteTarget::HLI, LoadByteSource::E))),
                0x74u8 => Some(Instruction::LD(LoadType::Byte(LoadByteTarget::HLI, LoadByteSource::H))),
                0x75u8 => Some(Instruction::LD(LoadType::Byte(LoadByteTarget::HLI, LoadByteSource::L))),
                0x76u8 => Some(Instruction::HALT),
                0x77u8 => Some(Instruction::LD(LoadType::Byte(LoadByteTarget::HLI, LoadByteSource::A))),
                0x78u8 => Some(Instruction::LD(LoadType::Byte(LoadByteTarget::A, LoadByteSource::B))),
                0x79u8 => Some(Instruction::LD(LoadType::Byte(LoadByteTarget::A, LoadByteSource::C))),
                0x7Au8 => Some(Instruction::LD(LoadType::Byte(LoadByteTarget::A, LoadByteSource::D))),
                0x7Bu8 => Some(Instruction::LD(LoadType::Byte(LoadByteTarget::A, LoadByteSource::E))),
                0x7Cu8 => Some(Instruction::LD(LoadType::Byte(LoadByteTarget::A, LoadByteSource::H))),
                0x7Du8 => Some(Instruction::LD(LoadType::Byte(LoadByteTarget::A, LoadByteSource::L))),
                0x7Eu8 => Some(Instruction::LD(LoadType::Byte(LoadByteTarget::A, LoadByteSource::HLI))),
                0x7Fu8 => Some(Instruction::LD(LoadType::Byte(LoadByteTarget::A, LoadByteSource::A))),
                0x80u8 => Some(Instruction::ADD(ArithmeticTarget::B)),
                0x81u8 => Some(Instruction::ADD(ArithmeticTarget::C)),
                0x82u8 => Some(Instruction::ADD(ArithmeticTarget::D)),
                0x83u8 => Some(Instruction::ADD(ArithmeticTarget::E)),
                0x84u8 => Some(Instruction::ADD(ArithmeticTarget::H)),
                0x85u8 => Some(Instruction::ADD(ArithmeticTarget::L)),
                0x86u8 => Some(Instruction::ADD(ArithmeticTarget::HLI)),
                0x87u8 => Some(Instruction::ADD(ArithmeticTarget::A)),
                0x88u8 => Some(Instruction::ADC(ArithmeticTarget::B)),
                0x89u8 => Some(Instruction::ADC(ArithmeticTarget::C)),
                0x8Au8 => Some(Instruction::ADC(ArithmeticTarget::D)),
                0x8Bu8 => Some(Instruction::ADC(ArithmeticTarget::E)),
                0x8Cu8 => Some(Instruction::ADC(ArithmeticTarget::H)),
                0x8Du8 => Some(Instruction::ADC(ArithmeticTarget::L)),
                0x8Eu8 => Some(Instruction::ADC(ArithmeticTarget::HLI)),
                0x8Fu8 => Some(Instruction::ADC(ArithmeticTarget::A)),
                0x90u8 => Some(Instruction::SUB(ArithmeticTarget::B)),
                0x91u8 => Some(Instruction::SUB(ArithmeticTarget::C)),
                0x92u8 => Some(Instruction::SUB(ArithmeticTarget::D)),
                0x93u8 => Some(Instruction::SUB(ArithmeticTarget::E)),
                0x94u8 => Some(Instruction::SUB(ArithmeticTarget::H)),
                0x95u8 => Some(Instruction::SUB(ArithmeticTarget::L)),
                0x96u8 => Some(Instruction::SUB(ArithmeticTarget::HLI)),
                0x97u8 => Some(Instruction::SUB(ArithmeticTarget::A)),
                0x98u8 => Some(Instruction::SBC(ArithmeticTarget::B)),
                0x99u8 => Some(Instruction::SBC(ArithmeticTarget::C)),
                0x9Au8 => Some(Instruction::SBC(ArithmeticTarget::D)),
                0x9Bu8 => Some(Instruction::SBC(ArithmeticTarget::E)),
                0x9Cu8 => Some(Instruction::SBC(ArithmeticTarget::H)),
                0x9Du8 => Some(Instruction::SBC(ArithmeticTarget::L)),
                0x9Eu8 => Some(Instruction::SBC(ArithmeticTarget::HLI)),
                0x9Fu8 => Some(Instruction::SBC(ArithmeticTarget::A)),
                0xA0u8 => Some(Instruction::AND(ArithmeticTarget::B)),
                0xA1u8 => Some(Instruction::AND(ArithmeticTarget::C)),
                0xA2u8 => Some(Instruction::AND(ArithmeticTarget::D)),
                0xA3u8 => Some(Instruction::AND(ArithmeticTarget::E)),
                0xA4u8 => Some(Instruction::AND(ArithmeticTarget::H)),
                0xA5u8 => Some(Instruction::AND(ArithmeticTarget::L)),
                0xA6u8 => Some(Instruction::AND(ArithmeticTarget::HLI)),
                0xA7u8 => Some(Instruction::AND(ArithmeticTarget::A)),
                0xA8u8 => Some(Instruction::XOR(ArithmeticTarget::B)),
                0xA9u8 => Some(Instruction::XOR(ArithmeticTarget::C)),
                0xAAu8 => Some(Instruction::XOR(ArithmeticTarget::D)),
                0xABu8 => Some(Instruction::XOR(ArithmeticTarget::E)),
                0xACu8 => Some(Instruction::XOR(ArithmeticTarget::H)),
                0xADu8 => Some(Instruction::XOR(ArithmeticTarget::L)),
                0xAEu8 => Some(Instruction::XOR(ArithmeticTarget::HLI)),
                0xAFu8 => Some(Instruction::XOR(ArithmeticTarget::A)),
                0xB0u8 => Some(Instruction::OR(ArithmeticTarget::B)),
                0xB1u8 => Some(Instruction::OR(ArithmeticTarget::C)),
                0xB2u8 => Some(Instruction::OR(ArithmeticTarget::D)),
                0xB3u8 => Some(Instruction::OR(ArithmeticTarget::E)),
                0xB4u8 => Some(Instruction::OR(ArithmeticTarget::H)),
                0xB5u8 => Some(Instruction::OR(ArithmeticTarget::L)),
                0xB6u8 => Some(Instruction::OR(ArithmeticTarget::HLI)),
                0xB7u8 => Some(Instruction::OR(ArithmeticTarget::A)),
                0xB8u8 => Some(Instruction::CP(ArithmeticTarget::B)),
                0xB9u8 => Some(Instruction::CP(ArithmeticTarget::C)),
                0xBAu8 => Some(Instruction::CP(ArithmeticTarget::D)),
                0xBBu8 => Some(Instruction::CP(ArithmeticTarget::E)),
                0xBCu8 => Some(Instruction::CP(ArithmeticTarget::H)),
                0xBDu8 => Some(Instruction::CP(ArithmeticTarget::L)),
                0xBEu8 => Some(Instruction::CP(ArithmeticTarget::HLI)),
                0xBFu8 => Some(Instruction::CP(ArithmeticTarget::A)),
                0xC0u8 => Some(Instruction::RET(JumpTest::NotZero)),
                0xC1u8 => Some(Instruction::POP(StackTarget::BC)),
                0xC2u8 => Some(Instruction::JP(JumpTest::NotZero)),
                0xC3u8 => Some(Instruction::JP(JumpTest::Always)),
                0xC4u8 => Some(Instruction::CALL(JumpTest::NotZero)),
                0xC5u8 => Some(Instruction::PUSH(StackTarget::BC)),
                0xC6u8 => Some(Instruction::ADD(ArithmeticTarget::D8)),
                0xC7u8 => Some(Instruction::RST(RstLocation::Rst00)),
                0xC8u8 => Some(Instruction::RET(JumpTest::Zero)),
                0xC9u8 => Some(Instruction::RET(JumpTest::Always)),
                0xCAu8 => Some(Instruction::JP(JumpTest::Zero)),
                0xCCu8 => Some(Instruction::CALL(JumpTest::Zero)),
                0xCDu8 => Some(Instruction::CALL(JumpTest::Always)),
                0xCEu8 => Some(Instruction::ADC(ArithmeticTarget::D8)),
                0xCFu8 => Some(Instruction::RST(RstLocation::Rst08)),
                0xD0u8 => Some(Instruction::RET(JumpTest::NotCarry)),
                0xD1u8 => Some(Instruction::POP(StackTarget::DE)),
                0xD2u8 => Some(Instruction::JP(JumpTest::NotCarry)),
                0xD4u8 => Some(Instruction::CALL(JumpTest::NotCarry)),
                0xD5u8 => Some(Instruction::PUSH(StackTarget::DE)),
                0xD6u8 => Some(Instruction::SUB(ArithmeticTarget::D8)),
                0xD7u8 => Some(Instruction::RST(RstLocation::Rst10)),
                0xD8u8 => Some(Instruction::RET(JumpTest::Carry)),
                0xD9u8 => Some(Instruction::RETI),
                0xDAu8 => Some(Instruction::JP(JumpTest::Carry)),
                0xDCu8 => Some(Instruction::CALL(JumpTest::Carry)),
                0xDEu8 => Some(Instruction::SBC(ArithmeticTarget::D8)),
                0xDFu8 => Some(Instruction::RST(RstLocation::Rst18)),
                0xE0u8 => Some(Instruction::LD(LoadType::ByteAddressFromA)),
                0xE1u8 => Some(Instruction::POP(StackTarget::HL)),
                0xE2u8 => Some(Instruction::LD(LoadType::IndirectFromA(Indirect::LastByteIndirect))),
                0xE5u8 => Some(Instruction::PUSH(StackTarget::HL)),
                0xE6u8 => Some(Instruction::AND(ArithmeticTarget::D8)),
                0xE7u8 => Some(Instruction::RST(RstLocation::Rst20)),
                0xE8u8 => Some(Instruction::ADDSP),
                0xE9u8 => Some(Instruction::JPI),
                0xEAu8 => Some(Instruction::LD(LoadType::IndirectFromA(Indirect::WordIndirect))),
                0xEEu8 => Some(Instruction::XOR(ArithmeticTarget::D8)),
                0xEFu8 => Some(Instruction::RST(RstLocation::Rst28)),
                0xF0u8 => Some(Instruction::LD(LoadType::AFromByteAddress)),
                0xF1u8 => Some(Instruction::POP(StackTarget::AF)),
                0xF2u8 => Some(Instruction::LD(LoadType::AFromIndirect(Indirect::LastByteIndirect))),
                0xF3u8 => Some(Instruction::DI),
                0xF5u8 => Some(Instruction::PUSH(StackTarget::AF)),
                0xF6u8 => Some(Instruction::OR(ArithmeticTarget::D8)),
                0xF7u8 => Some(Instruction::RST(RstLocation::Rst30)),
                0xF8u8 => Some(Instruction::LD(LoadType::HLFromSPN)),
                0xF9u8 => Some(Instruction::LD(LoadType::SPFromHL)),
                0xFAu8 => Some(Instruction::LD(LoadType::AFromIndirect(Indirect::WordIndirect))),
                0xFBu8 => Some(Instruction::EI),
                0xFEu8 => Some(Instruction::CP(ArithmeticTarget::D8)),
                0xFFu8 => Some(Instruction::RST(RstLocation::Rst38)),
                _ => None,
        }
    }
}

} // verus!
