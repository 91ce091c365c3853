//! The cartridge header: the fixed fields at addresses 0x100..0x150 of a ROM
//! image, and the cartridge-type code at 0x147.

use vstd::prelude::*;

verus! {

pub struct RomHeader {
    pub entry_point: [u8; 4],
    pub nintendo_logo: [u8; 48],
    pub title: [u8; 15],
    pub manufacturer_code: [u8; 4],
    pub cgb_flag: u8,
    pub new_licensee_code: [u8; 2],
    pub sgb_flag: u8,
    pub cartridge_type: u8,
    pub rom_size: u8,
    pub ram_size: u8,
    pub destination_code: u8,
    pub old_licensee_code: u8,
    pub mask_rom_version_number: u8,
    pub header_checksum: u8,
    pub global_checksum: [u8; 2],
}

/// Copy `n` bytes starting at `src[at]` into the front of `dst`.
fn copy_range<const N: usize>(dst: &mut [u8; N], src: &Vec<u8>, at: usize, n: usize)
    requires
        n <= N,
        at + n <= src@.len(),
    ensures
        final(dst)@.len() == N,
        forall|k: int| 0 <= k < n ==> final(dst)@[k] == src@[at + k],
        forall|k: int| n <= k < N ==> final(dst)@[k] == old(dst)@[k],
{
    let len = src.len();
    let mut i: usize = 0;
    while i < n
        invariant
            n <= N,
            at + n <= len == src@.len(),
            i <= n,
            dst@.len() == N,
            forall|k: int| 0 <= k < i ==> dst@[k] == src@[at + k],
            forall|k: int| i <= k < N ==> dst@[k] == old(dst)@[k],
        decreases n - i,
    {
        dst[i] = src[at + i];
        i = i + 1;
    }
}

impl RomHeader {
    /// Slice the fixed header fields out of a ROM image. The image must reach
    /// past the header, which ends at address 0x150.
    pub fn from_vec(vec: &Vec<u8>) -> (r: RomHeader)
        requires
            vec@.len() >= 0x150,
        ensures
            r.entry_point@ == vec@.subrange(0x100, 0x104),
            r.nintendo_logo@ == vec@.subrange(0x104, 0x134),
            r.title@ == vec@.subrange(0x134, 0x143),
            r.manufacturer_code@ == vec@.subrange(0x13F, 0x143),
            r.cgb_flag == vec@[0x143],
            r.new_licensee_code@ == vec@.subrange(0x144, 0x146),
            r.sgb_flag == vec@[0x146],
            r.cartridge_type == vec@[0x147],
            r.rom_size == vec@[0x148],
            r.ram_size == vec@[0x149],
            r.destination_code == vec@[0x14A],
            r.old_licensee_code == vec@[0x14B],
            r.mask_rom_version_number == vec@[0x14C],
            r.header_checksum == vec@[0x14D],
            r.global_checksum@ == vec@.subrange(0x14E, 0x150),
    {
        let mut entry_point = [0u8; 4];
        let mut nintendo_logo = [0u8; 48];
        let mut title = [0u8; 15];
        let mut manufacturer_code = [0u8; 4];
        let mut new_licensee_code = [0u8; 2];
        let mut global_checksum = [0u8; 2];

        copy_range(&mut entry_point, vec, 0x100, 4);
        copy_range(&mut nintendo_logo, vec, 0x104, 48);
        copy_range(&mut title, vec, 0x134, 15);
        copy_range(&mut manufacturer_code, vec, 0x13F, 4);
        copy_range(&mut new_licensee_code, vec, 0x144, 2);
        copy_range(&mut global_checksum, vec, 0x14E, 2);

        proof {
            assert(entry_point@ =~= vec@.subrange(0x100, 0x104));
            assert(nintendo_logo@ =~= vec@.subrange(0x104, 0x134));
            assert(title@ =~= vec@.subrange(0x134, 0x143));
            assert(manufacturer_code@ =~= vec@.subrange(0x13F, 0x143));
            assert(new_licensee_code@ =~= vec@.subrange(0x144, 0x146));
            assert(global_checksum@ =~= vec@.subrange(0x14E, 0x150));
        }

        RomHeader {
            entry_point,
            nintendo_logo,
            title,
            manufacturer_code,
            cgb_flag: vec[0x143],
            new_licensee_code,
            sgb_flag: vec[0x146],
            cartridge_type: vec[0x147],
            rom_size: vec[0x148],
            ram_size: vec[0x149],
            destination_code: vec[0x14A],
            old_licensee_code: vec[0x14B],
            mask_rom_version_number: vec[0x14C],
            header_checksum: vec[0x14D],
            global_checksum,
        }
    }
}

#[derive(Clone, Copy, Debug, PartialEq, Eq, Structural)]
pub enum CartridgeType {
    RomOnly,
    Mbc1,
    Mbc1Ram,
    Mbc1RamBattery,
    Mbc2,
    Mbc2Battery,
    RomRam,
    RomRamBattery,
    Mmm01,
    Mmm01Ram,
    Mmm01RamBattery,
    Mbc3TimerBattery,
    Mbc3TimerRamBattery,
    Mbc3,
}

impl CartridgeType {
    /// Classify the cartridge-type code found at header address 0x147.
    /// Returns `None` exactly on the codes that name no known cartridge.
    pub fn from_u8(value: u8) -> (r: Option<CartridgeType>)
        ensures
            r == match value {
                0x00u8 => Some(CartridgeType::RomOnly),
                0x01u8 => Some(CartridgeType::Mbc1),
                0x02u8 => Some(CartridgeType::Mbc1Ram),
                0x03u8 => Some(CartridgeType::Mbc1RamBattery),
                0x05u8 => Some(CartridgeType::Mbc2),
                0x06u8 => Some(CartridgeType::Mbc2Battery),
                0x08u8 => Some(CartridgeType::RomRam),
                0x09u8 => Some(CartridgeType::RomRamBattery),
                0x0Bu8 => Some(CartridgeType::Mmm01),
                0x0Cu8 => Some(CartridgeType::Mmm01Ram),
                0x0Du8 => Some(CartridgeType::Mmm01RamBattery),
                0x0Fu8 => Some(CartridgeType::Mbc3TimerBattery),
                0x10u8 => Some(CartridgeType::Mbc3TimerRamBattery),
                0x11u8 => Some(CartridgeType::Mbc3),
                _ => None,
            },
    {
        match value {
            0x00 => Some(CartridgeType::RomOnly),
            0x01 => Some(CartridgeType::Mbc1),
            0x02 => Some(CartridgeType::Mbc1Ram),
            0x03 => Some(CartridgeType::Mbc1RamBattery),
            0x05 => Some(CartridgeType::Mbc2),
            0x06 => Some(CartridgeType::Mbc2Battery),
            0x08 => Some(CartridgeType::RomRam),
            0x09 => Some(CartridgeType::RomRamBattery),
            0x0B => Some(CartridgeType::Mmm01),
            0x0C => Some(CartridgeType::Mmm01Ram),
            0x0D => Some(CartridgeType::Mmm01RamBattery),
            0x0F => Some(CartridgeType::Mbc3TimerBattery),
            0x10 => Some(CartridgeType::Mbc3TimerRamBattery),
            0x11 => Some(CartridgeType::Mbc3),
            _ => None,
        }
    }
}

} // verus!
