//! The tile renderer: reads the 32x32 background tile map and the tile data
//! from video memory and produces a 256x256 buffer of 2-bit color indices,
//! recomputed in one full pass per request.
//!
//! Each tile-map byte at 0x9800 + ty*32 + tx selects a 16-byte tile record at
//! 0x8000 + index*16; a tile is eight rows of two bytes, the first the low
//! bit-plane and the second the high bit-plane of that row.

use vstd::prelude::*;

use crate::cpu::Gameboy;

verus! {

/// The 2-bit color index of one pixel column (0..7) of a tile row, given the
/// row's low and high bit-plane bytes.
pub open spec fn spec_pixel_color(low: u8, high: u8, col: int) -> u8 {
    ((low >> ((7 - col) as u8)) & 1) | (((high >> ((7 - col) as u8)) & 1) << 1)
}

/// The tile-map entry for tile coordinates (tx, ty), both in 0..32.
pub open spec fn spec_tile_index(mem: Seq<u8>, tx: int, ty: int) -> u8 {
    mem[0x9800 + ty * 32 + tx]
}

/// The color index of the background pixel at (px, py), both in 0..256.
pub open spec fn spec_bg_pixel(mem: Seq<u8>, px: int, py: int) -> u8 {
    let tile = spec_tile_index(mem, px / 8, py / 8);
    let low = mem[0x8000 + tile * 16 + (py % 8) * 2];
    let high = mem[0x8000 + tile * 16 + (py % 8) * 2 + 1];
    spec_pixel_color(low, high, px % 8)
}

/// The fixed four-entry grayscale palette: a color index maps to a gray
/// level, black through white.
pub open spec fn spec_shade(color: u8) -> u8 {
    if color == 0 {
        0
    } else if color == 1 {
        86
    } else if color == 2 {
        172
    } else {
        255
    }
}

/// Decodes the color index of one pixel column of a tile row from the row's
/// two bit-plane bytes.
pub fn pixel_color(low: u8, high: u8, col: u8) -> (r: u8)
    requires
        col < 8,
    ensures
        r == spec_pixel_color(low, high, col as int),
        r < 4,
{
    let sh = 7 - col;
    let r = ((low >> sh) & 1) | (((high >> sh) & 1) << 1);
    proof {
        assert(((low >> sh) & 1) | (((high >> sh) & 1) << 1) < 4) by (bit_vector);
    }
    r
}

/// Maps a 2-bit color index to its gray level.
pub fn shade(color: u8) -> (r: u8)
    requires
        color < 4,
    ensures
        r == spec_shade(color),
{
    if color == 0 {
        0
    } else if color == 1 {
        86
    } else if color == 2 {
        172
    } else {
        255
    }
}

/// One full render pass over the background: a 256x256 buffer of color
/// indices in row-major order, each pixel decoded from the tile map and the
/// tile data exactly as `spec_bg_pixel` says.
pub fn render_background(gb: &Gameboy) -> (buf: Vec<u8>)
    requires
        gb.wf(),
    ensures
        buf@.len() == 0x10000,
        forall|px: int, py: int|
            0 <= px < 256 && 0 <= py < 256 ==> buf@[py * 256 + px] == #[trigger] spec_bg_pixel(
                gb@.mem,
                px,
                py,
            ),
        forall|i: int| 0 <= i < 0x10000 ==> buf@[i] < 4,
{
    let mut buf: Vec<u8> = Vec::new();
    let mut py: usize = 0;
    while py < 256
        invariant
            gb.wf(),
            py <= 256,
            buf@.len() == py * 256,
            forall|qx: int, qy: int|
                0 <= qx < 256 && 0 <= qy < py ==> buf@[qy * 256 + qx] == #[trigger] spec_bg_pixel(
                    gb@.mem,
                    qx,
                    qy,
                ),
            forall|i: int| 0 <= i < buf@.len() ==> buf@[i] < 4,
        decreases 256 - py,
    {
        let mut px: usize = 0;
        while px < 256
            invariant
                gb.wf(),
                py < 256,
                px <= 256,
                buf@.len() == py * 256 + px,
                forall|qx: int, qy: int|
                    0 <= qx < 256 && 0 <= qy < py ==> buf@[qy * 256 + qx]
                        == #[trigger] spec_bg_pixel(gb@.mem, qx, qy),
                forall|qx: int|
                    0 <= qx < px ==> buf@[py * 256 + qx] == #[trigger] spec_bg_pixel(
                        gb@.mem,
                        qx,
                        py as int,
                    ),
                forall|i: int| 0 <= i < buf@.len() ==> buf@[i] < 4,
            decreases 256 - px,
        {
            let tx = px / 8;
            let ty = py / 8;
            let map_addr: u16 = 0x9800 + (ty as u16) * 32 + (tx as u16);
            let tile = gb.read(map_addr);
            let row = py % 8;
            let data_addr: u16 = 0x8000 + (tile as u16) * 16 + (row as u16) * 2;
            let low = gb.read(data_addr);
            let high = gb.read(data_addr + 1);
            let color = pixel_color(low, high, (px % 8) as u8);
            buf.push(color);
            px += 1;
        }
        py += 1;
    }
    buf
}

} // verus!
