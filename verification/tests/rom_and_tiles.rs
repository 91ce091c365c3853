//! The cartridge header reader and the tile pixel decoding.

use lr35902::gpu::{byte_to_rgb, tile_to_vec};
use lr35902::rom_reader::{CartridgeType, RomHeader};

fn sample_rom() -> Vec<u8> {
    let mut rom = vec![0u8; 0x8000];
    for i in 0..4 {
        rom[0x100 + i] = 0xE0 + i as u8;
    }
    for i in 0..48 {
        rom[0x104 + i] = i as u8;
    }
    let title = b"TETRIS";
    for (i, b) in title.iter().enumerate() {
        rom[0x134 + i] = *b;
    }
    rom[0x143] = 0x80;
    rom[0x144] = 0x01;
    rom[0x145] = 0x02;
    rom[0x146] = 0x03;
    rom[0x147] = 0x01;
    rom[0x148] = 0x05;
    rom[0x149] = 0x03;
    rom[0x14A] = 0x01;
    rom[0x14B] = 0x33;
    rom[0x14C] = 0x02;
    rom[0x14D] = 0x66;
    rom[0x14E] = 0xAA;
    rom[0x14F] = 0xBB;
    rom
}

#[test]
fn header_fields_come_from_their_addresses() {
    let rom = sample_rom();
    let header = RomHeader::from_vec(&rom);
    assert_eq!(header.entry_point, [0xE0, 0xE1, 0xE2, 0xE3]);
    assert_eq!(header.nintendo_logo[0], 0);
    assert_eq!(header.nintendo_logo[47], 47);
    assert_eq!(&header.title[..6], b"TETRIS");
    assert_eq!(header.title[6], 0);
    assert_eq!(header.cgb_flag, 0x80);
    assert_eq!(header.new_licensee_code, [0x01, 0x02]);
    assert_eq!(header.sgb_flag, 0x03);
    assert_eq!(header.cartridge_type, 0x01);
    assert_eq!(header.rom_size, 0x05);
    assert_eq!(header.ram_size, 0x03);
    assert_eq!(header.destination_code, 0x01);
    assert_eq!(header.old_licensee_code, 0x33);
    assert_eq!(header.mask_rom_version_number, 0x02);
    assert_eq!(header.header_checksum, 0x66);
    assert_eq!(header.global_checksum, [0xAA, 0xBB]);
    assert_eq!(
        String::from_utf8(header.title.to_vec())
            .unwrap()
            .trim_end_matches(char::from(0)),
        "TETRIS"
    );
}

#[test]
fn cartridge_type_known_codes() {
    assert_eq!(CartridgeType::from_u8(0x00), Some(CartridgeType::RomOnly));
    assert_eq!(CartridgeType::from_u8(0x01), Some(CartridgeType::Mbc1));
    assert_eq!(CartridgeType::from_u8(0x02), Some(CartridgeType::Mbc1Ram));
    assert_eq!(
        CartridgeType::from_u8(0x03),
        Some(CartridgeType::Mbc1RamBattery)
    );
    assert_eq!(CartridgeType::from_u8(0x05), Some(CartridgeType::Mbc2));
    assert_eq!(
        CartridgeType::from_u8(0x06),
        Some(CartridgeType::Mbc2Battery)
    );
    assert_eq!(CartridgeType::from_u8(0x08), Some(CartridgeType::RomRam));
    assert_eq!(
        CartridgeType::from_u8(0x09),
        Some(CartridgeType::RomRamBattery)
    );
    assert_eq!(CartridgeType::from_u8(0x0B), Some(CartridgeType::Mmm01));
    assert_eq!(CartridgeType::from_u8(0x0C), Some(CartridgeType::Mmm01Ram));
    assert_eq!(
        CartridgeType::from_u8(0x0D),
        Some(CartridgeType::Mmm01RamBattery)
    );
    assert_eq!(
        CartridgeType::from_u8(0x0F),
        Some(CartridgeType::Mbc3TimerBattery)
    );
    assert_eq!(
        CartridgeType::from_u8(0x10),
        Some(CartridgeType::Mbc3TimerRamBattery)
    );
    assert_eq!(CartridgeType::from_u8(0x11), Some(CartridgeType::Mbc3));
}

#[test]
fn cartridge_type_unknown_codes() {
    assert_eq!(CartridgeType::from_u8(0x04), None);
    assert_eq!(CartridgeType::from_u8(0x07), None);
    assert_eq!(CartridgeType::from_u8(0x0A), None);
    assert_eq!(CartridgeType::from_u8(0x0E), None);
    assert_eq!(CartridgeType::from_u8(0x12), None);
    assert_eq!(CartridgeType::from_u8(0xFF), None);
}

#[test]
fn tile_decodes_row_by_row() {
    // The classic test tile: FF 00 gives a row of colour 1, 00 FF a row of
    // colour 2, FF FF a row of colour 3, 00 00 a row of colour 0.
    let tile = [
        0xFF, 0x00, 0x00, 0xFF, 0xFF, 0xFF, 0x00, 0x00, 0x81, 0x81, 0x00, 0x00, 0x00, 0x00, 0x00,
        0x00,
    ];
    let pixels = tile_to_vec(&tile);
    assert_eq!(pixels.len(), 64);
    assert!(pixels[0..8].iter().all(|p| *p == 1));
    assert!(pixels[8..16].iter().all(|p| *p == 2));
    assert!(pixels[16..24].iter().all(|p| *p == 3));
    assert!(pixels[24..32].iter().all(|p| *p == 0));
    assert_eq!(pixels[32], 3);
    assert!(pixels[33..39].iter().all(|p| *p == 0));
    assert_eq!(pixels[39], 3);
}

#[test]
fn rgb_palette_values() {
    assert_eq!(byte_to_rgb(0), 0x00FFFFFF);
    assert_eq!(byte_to_rgb(1), 0x00AAAAAA);
    assert_eq!(byte_to_rgb(2), 0x00555555);
    assert_eq!(byte_to_rgb(3), 0x00000000);
}
