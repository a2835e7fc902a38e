//! The packed cell word and the glyph table.
//!
//! A cell is one 32-bit word laid out as `0xRRGGBBCC`: red in the top byte,
//! then green, then blue, and a glyph index in the low byte.

use vstd::prelude::*;

verus! {

/// How many glyphs the luminance ramp holds, dark to bright.
pub const RAMP_LEN: u8 = 10;

/// How many directional edge glyphs follow the ramp.
pub const EDGE_LEN: u8 = 4;

/// The glyph table: the luminance ramp from dark to bright, then the edge
/// glyphs for a vertical, a horizontal, a back-diagonal and a
/// forward-diagonal edge.
pub open spec fn glyph_table() -> Seq<char> {
    seq![' ', '.', ';', 'c', 'o', 'P', 'O', '?', '@', '#', '|', '-', '\\', '/']
}

/// The character that a glyph index stands for; an index past the table is a
/// blank.
pub open spec fn glyph_char(index: u8) -> char {
    if (index as int) < glyph_table().len() {
        glyph_table()[index as int]
    } else {
        ' '
    }
}

/// The red byte of a packed cell.
pub open spec fn cell_red(packed: u32) -> u8 {
    (packed / 0x100_0000) as u8
}

/// The green byte of a packed cell.
pub open spec fn cell_green(packed: u32) -> u8 {
    (packed / 0x1_0000 % 0x100) as u8
}

/// The blue byte of a packed cell.
pub open spec fn cell_blue(packed: u32) -> u8 {
    (packed / 0x100 % 0x100) as u8
}

/// The glyph index of a packed cell.
pub open spec fn cell_glyph(packed: u32) -> u8 {
    (packed % 0x100) as u8
}

/// The colour of a packed cell.
pub open spec fn cell_color(packed: u32) -> (u8, u8, u8) {
    (cell_red(packed), cell_green(packed), cell_blue(packed))
}

/// The word that holds a colour and a glyph index.
pub open spec fn pack_cell(r: u8, g: u8, b: u8, glyph: u8) -> u32 {
    (r * 0x100_0000 + g * 0x1_0000 + b * 0x100 + glyph) as u32
}

/// Splits a packed cell into red, green, blue and glyph index.
pub fn unpack_data(packed: u32) -> (cell: (u8, u8, u8, u8))
    ensures
        cell.0 == cell_red(packed),
        cell.1 == cell_green(packed),
        cell.2 == cell_blue(packed),
        cell.3 == cell_glyph(packed),
        packed == pack_cell(cell.0, cell.1, cell.2, cell.3),
{
    let char_index = (packed & 0xFF) as u8;
    let b = ((packed >> 8) & 0xFF) as u8;
    let g = ((packed >> 16) & 0xFF) as u8;
    let r = ((packed >> 24) & 0xFF) as u8;
    assert(packed & 0xFF == packed % 0x100) by (bit_vector);
    assert((packed >> 8) & 0xFF == packed / 0x100 % 0x100) by (bit_vector);
    assert((packed >> 16) & 0xFF == packed / 0x1_0000 % 0x100) by (bit_vector);
    assert((packed >> 24) & 0xFF == packed / 0x100_0000) by (bit_vector);
    (r, g, b, char_index)
}

/// The character for a glyph index.
pub fn get_char(char_index: u8) -> (c: char)
    ensures
        c == glyph_char(char_index),
{
    match char_index {
        0 => ' ',
        1 => '.',
        2 => ';',
        3 => 'c',
        4 => 'o',
        5 => 'P',
        6 => 'O',
        7 => '?',
        8 => '@',
        9 => '#',
        10 => '|',
        11 => '-',
        12 => '\\',
        13 => '/',
        _ => ' ',
    }
}

/// A packed word decodes to the colour and glyph index it was made of.
pub proof fn lemma_unpack_of_pack(r: u8, g: u8, b: u8, glyph: u8)
    ensures
        cell_red(pack_cell(r, g, b, glyph)) == r,
        cell_green(pack_cell(r, g, b, glyph)) == g,
        cell_blue(pack_cell(r, g, b, glyph)) == b,
        cell_glyph(pack_cell(r, g, b, glyph)) == glyph,
{
    let packed: int = r * 0x100_0000 + g * 0x1_0000 + b * 0x100 + glyph;
    assert(pack_cell(r, g, b, glyph) == packed);
    assert(packed / 0x100_0000 == r);
    assert(packed / 0x1_0000 == r * 0x100 + g);
    assert(packed / 0x100 == r * 0x1_0000 + g * 0x100 + b);
}

/// Every word is the packing of the four bytes it decodes to, so no two
/// words decode alike.
pub proof fn lemma_pack_of_unpack(packed: u32)
    ensures
        pack_cell(cell_red(packed), cell_green(packed), cell_blue(packed), cell_glyph(packed))
            == packed,
{
    let high = packed / 0x100_0000;
    let upper = packed / 0x1_0000;
    let most = packed / 0x100;
    assert(packed == most * 0x100 + packed % 0x100);
    assert(most == upper * 0x100 + most % 0x100);
    assert(upper == high * 0x100 + upper % 0x100);
}

/// The ramp glyphs come first and in ramp order, the four edge glyphs follow,
/// and every other index is a blank.
pub proof fn lemma_glyph_ranges(index: u8)
    ensures
        index < RAMP_LEN ==> glyph_char(index) == glyph_table()[index as int],
        RAMP_LEN <= index < RAMP_LEN + EDGE_LEN ==> glyph_char(index) == seq!['|', '-', '\\', '/'][
            index - RAMP_LEN
        ],
        index >= RAMP_LEN + EDGE_LEN ==> glyph_char(index) == ' ',
{
}

} // verus!
