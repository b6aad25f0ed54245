use gameboy::cpu::Gameboy;
use gameboy::decode::{decode, decode_cb, CbInstr, Instr, Src8};
use gameboy::registers::Reg8;
use gameboy::renderer::{pixel_color, render_background, shade};

#[test]
fn tile_row_decodes_to_dark_gray() {
    // Tile 0, row 0: low plane 0xFF, high plane 0x00 -> eight pixels at
    // color index 1, independent of the other rows.
    let mut gb = Gameboy::new();
    gb.write(0x8000, 0xFF);
    gb.write(0x8001, 0x00);
    let buf = render_background(&gb);
    assert_eq!(buf.len(), 0x10000);
    for px in 0..8 {
        assert_eq!(buf[px], 1);
    }
    // Row 1 of the same tile is still all zeroes.
    for px in 0..8 {
        assert_eq!(buf[256 + px], 0);
    }
}

#[test]
fn tile_index_selects_a_sixteen_byte_record() {
    // Map entry (0,0) selects tile 1, whose record sits at 0x8010.
    let mut gb = Gameboy::new();
    gb.write(0x9800, 1);
    gb.write(0x8010, 0xFF);
    gb.write(0x8011, 0xFF);
    let buf = render_background(&gb);
    for px in 0..8 {
        assert_eq!(buf[px], 3);
    }
    // The neighbouring map entry still selects tile 0 (all zero).
    assert_eq!(buf[8], 0);
}

#[test]
fn tile_rows_use_two_bytes_per_row() {
    // Row 3 of tile 0 lives at 0x8006/0x8007.
    let mut gb = Gameboy::new();
    gb.write(0x8006, 0x00);
    gb.write(0x8007, 0xFF);
    let buf = render_background(&gb);
    for px in 0..8 {
        assert_eq!(buf[3 * 256 + px], 2);
    }
}

#[test]
fn pixel_color_combines_bit_planes() {
    assert_eq!(pixel_color(0x80, 0x00, 0), 1);
    assert_eq!(pixel_color(0x00, 0x80, 0), 2);
    assert_eq!(pixel_color(0x80, 0x80, 0), 3);
    assert_eq!(pixel_color(0x00, 0x00, 0), 0);
    // Column 7 reads bit 0.
    assert_eq!(pixel_color(0x01, 0x00, 7), 1);
    assert_eq!(pixel_color(0x00, 0x01, 7), 2);
    // A mixed row, column by column.
    let low = 0b1100_0110;
    let high = 0b1010_0011;
    let expect = [3, 1, 2, 0, 0, 1, 3, 2];
    for col in 0..8u8 {
        assert_eq!(pixel_color(low, high, col), expect[col as usize]);
    }
}

#[test]
fn palette_maps_indices_to_gray_levels() {
    assert_eq!(shade(0), 0);
    assert_eq!(shade(1), 86);
    assert_eq!(shade(2), 172);
    assert_eq!(shade(3), 255);
}

#[test]
fn rendered_buffer_holds_only_two_bit_indices() {
    let mut gb = Gameboy::new();
    for i in 0..32 {
        gb.write(0x8000 + i, (i as u8).wrapping_mul(37));
        gb.write(0x9800 + i, i as u8);
    }
    let buf = render_background(&gb);
    assert_eq!(buf.len(), 0x10000);
    assert!(buf.iter().all(|&c| c < 4));
}

#[test]
fn decode_table_spot_checks() {
    assert_eq!(decode(0x00), Some(Instr::Nop));
    assert_eq!(decode(0x3E), Some(Instr::LdD8(Reg8::A)));
    assert_eq!(decode(0x80), Some(Instr::AddA(Src8::Reg(Reg8::B))));
    assert_eq!(decode(0x86), Some(Instr::AddA(Src8::HlInd)));
    assert_eq!(decode(0xE6), Some(Instr::AndA(Src8::Imm)));
    assert_eq!(decode(0x76), Some(Instr::Halt));
    assert_eq!(decode(0xCB), Some(Instr::Prefix));
    assert_eq!(decode(0xD3), None);
    assert_eq!(decode(0x34), None);
    assert_eq!(decode_cb(0x37), Some(CbInstr::Swap(Reg8::A)));
    assert_eq!(decode_cb(0x36), Some(CbInstr::SwapHl));
    assert_eq!(decode_cb(0x80), Some(CbInstr::Res(0, Reg8::B)));
    assert_eq!(decode_cb(0xBE), Some(CbInstr::ResHl(7)));
    // A quirk of the table: 0xCB 0x87 clears bit 1 of A, as 0xCB 0x8F does.
    assert_eq!(decode_cb(0x87), Some(CbInstr::Res(1, Reg8::A)));
    assert_eq!(decode_cb(0x00), None);
}
