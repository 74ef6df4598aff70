//! The playfield texture: an RGBA image of the grid with a one-pixel
//! white wall around the playable cells.  The host computes the raw
//! texel data; the renderer turns it into its own image resource.

use vstd::prelude::*;

use crate::CELLS;

verus! {

/// Width and height of the texture in texels: the playable cells plus
/// the left and right (or top and bottom) walls.
pub const TEXTURE_WIDTH: u32 = CELLS + 2;

/// One byte of the texture, by flat index: four bytes per texel, texels
/// in row-major order; wall texels are opaque white, playable texels
/// are transparent black.
pub open spec fn texel_byte(i: int) -> u8 {
    let texel = i / 4;
    let x = texel % 22;
    let y = texel / 22;
    if x == 0 || x == 21 || y == 0 || y == 21 {
        255u8
    } else {
        0u8
    }
}

/// Computes the raw RGBA data of the grid texture.
pub fn grid_texture() -> (r: Vec<u8>)
    ensures
        r@.len() == 22 * 22 * 4,
        forall|i: int| 0 <= i < r@.len() ==> r@[i] == texel_byte(i),
        forall|x: int, y: int, c: int|
            0 <= x < 22 && 0 <= y < 22 && 0 <= c < 4 ==> #[trigger] r@[(y * 22 + x) * 4 + c] == (
            if x == 0 || x == 21 || y == 0 || y == 21 {
                255u8
            } else {
                0u8
            }),
{
    let mut data: Vec<u8> = Vec::new();
    let mut i: usize = 0;
    while i < 1936
        invariant
            data@.len() == i,
            i <= 1936,
            forall|k: int| 0 <= k < i ==> data@[k] == texel_byte(k),
        decreases 1936 - i,
    {
        let texel = i / 4;
        let x = texel % 22;
        let y = texel / 22;
        let byte: u8 = if x == 0 || x == 21 || y == 0 || y == 21 {
            255
        } else {
            0
        };
        data.push(byte);
        i = i + 1;
    }
    proof {
        assert forall|x: int, y: int, c: int|
            0 <= x < 22 && 0 <= y < 22 && 0 <= c < 4 implies #[trigger] data@[(y * 22 + x) * 4 + c] == (
        if x == 0 || x == 21 || y == 0 || y == 21 {
            255u8
        } else {
            0u8
        }) by {
            lemma_texel_byte_at(x, y, c);
        }
    }
    data
}

/// The flat-index rule above reads back as the expected picture: the
/// byte of channel `c` of the texel at column `x`, row `y` is white
/// exactly on the wall ring.
pub proof fn lemma_texel_byte_at(x: int, y: int, c: int)
    requires
        0 <= x < 22,
        0 <= y < 22,
        0 <= c < 4,
    ensures
        texel_byte((y * 22 + x) * 4 + c) == (if x == 0 || x == 21 || y == 0 || y == 21 {
            255u8
        } else {
            0u8
        }),
{
    let texel = y * 22 + x;
    let i = texel * 4 + c;
    vstd::arithmetic::div_mod::lemma_fundamental_div_mod_converse(i, 4, texel, c);
    vstd::arithmetic::div_mod::lemma_fundamental_div_mod_converse(texel, 22, y, x);
}

} // verus!
