//! Pure pixel decoding for the 2-bits-per-pixel Game Boy tile format.
//!
//! A tile is 16 bytes: each of its 8 rows is a pair of bytes, and pixel `j`
//! of a row combines bit `7 - j` of the first byte (low colour bit) with the
//! same bit of the second byte (high colour bit). The host window that these
//! pixels are drawn into lives outside the library.

use vstd::prelude::*;

verus! {

/// Colour index of pixel `j` (0 <= j < 8) of the tile row made of the byte
/// pair `b1`, `b2`: bit `7 - j` of `b1` is the low bit, the same bit of `b2`
/// the high bit.
pub open spec fn tile_pixel(b1: u8, b2: u8, j: int) -> u8 {
    ((b1 >> (7 - j) as u8) & 1) | (((b2 >> (7 - j) as u8) & 1) << 1)
}

/// Decode the first 16 bytes of `tile` into 64 pixel colour indices, row by
/// row, left to right.
pub fn tile_to_vec(tile: &[u8]) -> (r: Vec<u8>)
    requires
        tile@.len() >= 16,
    ensures
        r@.len() == 64,
        forall|k: int|
            0 <= k < 64 ==> r@[k] == tile_pixel(tile@[2 * (k / 8)], tile@[2 * (k / 8) + 1], k % 8),
{
    let mut vec: Vec<u8> = Vec::new();
    let mut i: usize = 0;
    while i < 8
        invariant
            tile@.len() >= 16,
            i <= 8,
            vec@.len() == 8 * i,
            forall|k: int|
                0 <= k < 8 * i ==> vec@[k] == tile_pixel(
                    tile@[2 * (k / 8)],
                    tile@[2 * (k / 8) + 1],
                    k % 8,
                ),
        decreases 8 - i,
    {
        let byte1 = vstd::slice::slice_index_get(tile, 2 * i);
        let byte2 = vstd::slice::slice_index_get(tile, 2 * i + 1);
        let mut j: usize = 0;
        while j < 8
            invariant
                tile@.len() >= 16,
                i < 8,
                j <= 8,
                *byte1 == tile@[2 * i],
                *byte2 == tile@[2 * i + 1],
                vec@.len() == 8 * i + j,
                forall|k: int|
                    0 <= k < 8 * i + j ==> vec@[k] == tile_pixel(
                        tile@[2 * (k / 8)],
                        tile@[2 * (k / 8) + 1],
                        k % 8,
                    ),
            decreases 8 - j,
        {
            let shift: u8 = (7 - j) as u8;
            let bit1 = (*byte1 >> shift) & 1;
            let bit2 = (*byte2 >> shift) & 1;
            let color = bit1 | (bit2 << 1);
            vec.push(color);
            j = j + 1;
        }
        i = i + 1;
    }
    vec
}

/// Map a 2-bit colour index to its greyscale 0RGB value.
pub fn byte_to_rgb(byte: u8) -> (r: u32)
    requires
        byte <= 3,
    ensures
        byte == 0 ==> r == 0x00FFFFFFu32,
        byte == 1 ==> r == 0x00AAAAAAu32,
        byte == 2 ==> r == 0x00555555u32,
        byte == 3 ==> r == 0x00000000u32,
{
    match byte {
        0 => 0x00FFFFFF,
        1 => 0x00AAAAAA,
        2 => 0x00555555,
        _ => 0x00000000,
    }
}

} // verus!
