use lr35902::cpu::instructions::{
    ArithmeticTarget, BitPosition, IncDecTarget, Instruction, JumpTest, LoadByteSource,
    LoadByteTarget, LoadType, PrefixTarget, RstLocation, StackTarget,
};

const ILLEGAL: [u8; 11] = [
    0xD3, 0xDB, 0xDD, 0xE3, 0xE4, 0xEB, 0xEC, 0xED, 0xF4, 0xFC, 0xFD,
];

#[test]
fn illegal_opcodes_fail_to_decode() {
    for byte in ILLEGAL {
        assert!(Instruction::from_byte(byte, false).is_none());
    }
}

#[test]
fn prefix_byte_is_no_instruction_of_its_own() {
    assert!(Instruction::from_byte(0xCB, false).is_none());
}

#[test]
fn every_other_primary_byte_decodes() {
    let mut legal = 0;
    for byte in 0..=255u8 {
        if Instruction::from_byte(byte, false).is_some() {
            legal += 1;
        }
    }
    assert_eq!(legal, 256 - ILLEGAL.len() - 1);
}

#[test]
fn every_prefixed_byte_decodes() {
    for byte in 0..=255u8 {
        assert!(Instruction::from_byte(byte, true).is_some());
    }
}

#[test]
fn primary_table_spot_checks() {
    assert_eq!(Instruction::from_byte(0x00, false), Some(Instruction::NOP));
    assert_eq!(
        Instruction::from_byte(0x34, false),
        Some(Instruction::INC(IncDecTarget::HLI))
    );
    assert_eq!(
        Instruction::from_byte(0x41, false),
        Some(Instruction::LD(LoadType::Byte(
            LoadByteTarget::B,
            LoadByteSource::C
        )))
    );
    assert_eq!(Instruction::from_byte(0x76, false), Some(Instruction::HALT));
    assert_eq!(
        Instruction::from_byte(0x86, false),
        Some(Instruction::ADD(ArithmeticTarget::HLI))
    );
    assert_eq!(
        Instruction::from_byte(0xBF, false),
        Some(Instruction::CP(ArithmeticTarget::A))
    );
    assert_eq!(
        Instruction::from_byte(0xC3, false),
        Some(Instruction::JP(JumpTest::Always))
    );
    assert_eq!(
        Instruction::from_byte(0xF1, false),
        Some(Instruction::POP(StackTarget::AF))
    );
    assert_eq!(
        Instruction::from_byte(0xFF, false),
        Some(Instruction::RST(RstLocation::Rst38))
    );
    assert_eq!(Instruction::from_byte(0xD9, false), Some(Instruction::RETI));
}

#[test]
fn prefixed_table_spot_checks() {
    assert_eq!(
        Instruction::from_byte(0x00, true),
        Some(Instruction::RLC(PrefixTarget::B))
    );
    assert_eq!(
        Instruction::from_byte(0x3F, true),
        Some(Instruction::SRL(PrefixTarget::A))
    );
    assert_eq!(
        Instruction::from_byte(0x7C, true),
        Some(Instruction::BIT(PrefixTarget::H, BitPosition::B7))
    );
    assert_eq!(
        Instruction::from_byte(0x86, true),
        Some(Instruction::RES(PrefixTarget::HLI, BitPosition::B0))
    );
    assert_eq!(
        Instruction::from_byte(0xFF, true),
        Some(Instruction::SET(PrefixTarget::A, BitPosition::B7))
    );
    assert_eq!(
        Instruction::from_byte(0x30, true),
        Some(Instruction::SWAP(PrefixTarget::B))
    );
}

#[test]
fn rst_vectors_and_bit_indices() {
    assert_eq!(RstLocation::Rst00.address(), 0x00);
    assert_eq!(RstLocation::Rst38.address(), 0x38);
    assert_eq!(BitPosition::B0.index(), 0);
    assert_eq!(BitPosition::B7.index(), 7);
}
