//! A frame as text with ANSI colour codes, for the clipboard.
//!
//! The text holds the whole buffer, whatever the terminal's size: each row
//! ends in a line feed, and each row that sets a colour resets it first.

use super::frame::{cell_at, cell_rgb, color_or_black, lower_cell, UPPER_HALF_BLOCK};
use super::glyph::{cell_glyph, get_char, glyph_char, unpack_data};
use super::ops::Rgb;
use super::output::{cell_word, rgb_of, rgb_or_black, RenderMode, TerminalRenderer};
use super::text::{decimal, push_decimal};
use vstd::prelude::*;
use vstd::string::StringExecFns;

verus! {

/// The three channels of a colour as an escape sequence writes them.
pub open spec fn color_parameters(color: Rgb) -> Seq<char> {
    decimal(color.r as nat) + seq![';'] + decimal(color.g as nat) + seq![';'] + decimal(
        color.b as nat,
    )
}

/// The escape sequence that sets a 24-bit foreground colour.
pub open spec fn foreground_escape(color: Rgb) -> Seq<char> {
    "\x1b[38;2;"@ + color_parameters(color) + seq!['m']
}

/// The escape sequence that sets a 24-bit background colour.
pub open spec fn background_escape(color: Rgb) -> Seq<char> {
    "\x1b[48;2;"@ + color_parameters(color) + seq!['m']
}

/// The escape sequence that resets the colours.
pub open spec fn reset_escape() -> Seq<char> {
    "\x1b[0m"@
}

// ---------------------------------------------------------------------------
// Plain text

/// One cell as plain text: its glyph, or nothing where the buffer has no
/// such cell.
pub open spec fn plain_text_cell(cell: Option<u32>) -> Seq<char> {
    match cell {
        Some(packed) => seq![glyph_char(cell_glyph(packed))],
        None => Seq::empty(),
    }
}

/// The first `width` cells of a buffer row as plain text.
pub open spec fn plain_text_row(data: Seq<u32>, cols: int, row: int, width: int) -> Seq<char>
    decreases width,
{
    if width <= 0 {
        Seq::empty()
    } else {
        plain_text_row(data, cols, row, width - 1) + plain_text_cell(
            cell_at(data, cols, row, width - 1),
        )
    }
}

/// The first `count` rows of a buffer as plain text, a line feed after each.
pub open spec fn plain_text_rows(data: Seq<u32>, cols: int, count: int) -> Seq<char>
    decreases count,
{
    if count <= 0 {
        Seq::empty()
    } else {
        plain_text_rows(data, cols, count - 1) + plain_text_row(data, cols, count - 1, cols)
            + seq!['\n']
    }
}

// ---------------------------------------------------------------------------
// Coloured text

/// One cell as coloured text, given the colour set last on its row: the
/// escape for its colour where that differs, then its glyph.
pub open spec fn colored_text_cell(cell: Option<u32>, last: Option<Rgb>) -> Seq<char> {
    match cell {
        Some(packed) => {
            let glyph = seq![glyph_char(cell_glyph(packed))];
            if last != Some(cell_rgb(packed)) {
                foreground_escape(cell_rgb(packed)) + glyph
            } else {
                glyph
            }
        },
        None => Seq::empty(),
    }
}

/// The colour set last after the first `width` cells of a row. A row starts
/// with none.
pub open spec fn colored_text_last(data: Seq<u32>, cols: int, row: int, width: int) -> Option<Rgb>
    decreases width,
{
    if width <= 0 {
        None
    } else {
        match cell_at(data, cols, row, width - 1) {
            Some(packed) => Some(cell_rgb(packed)),
            None => colored_text_last(data, cols, row, width - 1),
        }
    }
}

/// The first `width` cells of a buffer row as coloured text.
pub open spec fn colored_text_row(data: Seq<u32>, cols: int, row: int, width: int) -> Seq<char>
    decreases width,
{
    if width <= 0 {
        Seq::empty()
    } else {
        colored_text_row(data, cols, row, width - 1) + colored_text_cell(
            cell_at(data, cols, row, width - 1),
            colored_text_last(data, cols, row, width - 1),
        )
    }
}

/// The first `count` rows of a buffer as coloured text, a reset and a line
/// feed after each.
pub open spec fn colored_text_rows(data: Seq<u32>, cols: int, count: int) -> Seq<char>
    decreases count,
{
    if count <= 0 {
        Seq::empty()
    } else {
        colored_text_rows(data, cols, count - 1) + colored_text_row(data, cols, count - 1, cols)
            + reset_escape() + seq!['\n']
    }
}

// ---------------------------------------------------------------------------
// Half-block text

/// One cell of half-block text: the upper cell's colour as foreground, the
/// lower cell's as background, and the upper half block.
pub open spec fn half_text_cell(top: Option<u32>, bottom: Option<u32>) -> Seq<char> {
    foreground_escape(color_or_black(top)) + background_escape(color_or_black(bottom))
        + seq![UPPER_HALF_BLOCK]
}

/// The first `width` cells of text row `text_row`, made of the buffer rows
/// `2 * text_row` and `2 * text_row + 1`.
pub open spec fn half_text_row(data: Seq<u32>, cols: int, rows: int, text_row: int, width: int) -> Seq<
    char,
>
    decreases width,
{
    if width <= 0 {
        Seq::empty()
    } else {
        half_text_row(data, cols, rows, text_row, width - 1) + half_text_cell(
            cell_at(data, cols, 2 * text_row, width - 1),
            lower_cell(data, cols, rows, text_row, width - 1),
        )
    }
}

/// The first `count` rows of half-block text, a reset and a line feed after
/// each.
pub open spec fn half_text_rows(data: Seq<u32>, cols: int, rows: int, count: int) -> Seq<char>
    decreases count,
{
    if count <= 0 {
        Seq::empty()
    } else {
        half_text_rows(data, cols, rows, count - 1) + half_text_row(
            data,
            cols,
            rows,
            count - 1,
            cols,
        ) + reset_escape() + seq!['\n']
    }
}

/// A buffer of `cols` by `rows` cells as text in the given mode.
pub open spec fn ansi_text(mode: RenderMode, data: Seq<u32>, cols: int, rows: int) -> Seq<char> {
    match mode {
        RenderMode::PlainAscii => plain_text_rows(data, cols, rows),
        RenderMode::ColoredAscii => colored_text_rows(data, cols, rows),
        RenderMode::HalfBlock => half_text_rows(data, cols, rows, rows / 2),
    }
}

// ---------------------------------------------------------------------------

fn push_color_parameters(out: &mut String, color: Rgb)
    ensures
        final(out)@ == old(out)@ + color_parameters(color),
{
    push_decimal(out, color.r as u32);
    out.push(';');
    push_decimal(out, color.g as u32);
    out.push(';');
    push_decimal(out, color.b as u32);
}

fn push_foreground(out: &mut String, color: Rgb)
    ensures
        final(out)@ == old(out)@ + foreground_escape(color),
{
    out.append("\x1b[38;2;");
    push_color_parameters(out, color);
    out.push('m');
}

fn push_background(out: &mut String, color: Rgb)
    ensures
        final(out)@ == old(out)@ + background_escape(color),
{
    out.append("\x1b[48;2;");
    push_color_parameters(out, color);
    out.push('m');
}

impl TerminalRenderer {
    /// The buffer as text in the given mode, with ANSI colour codes where
    /// the mode has colour.
    pub fn frame_to_ansi_string(&self, data: &[u32], cols: u32, rows: u32, mode: RenderMode) -> (text:
        String)
        ensures
            text@ == ansi_text(mode, data@, cols as int, rows as int),
    {
        match mode {
            RenderMode::PlainAscii => self.frame_to_plain_string(data, cols, rows),
            RenderMode::ColoredAscii => self.frame_to_colored_string(data, cols, rows),
            RenderMode::HalfBlock => self.frame_to_halfblock_string(data, cols, rows),
        }
    }

    /// The buffer as glyphs alone, one line for each row.
    pub fn frame_to_plain_string(&self, data: &[u32], cols: u32, rows: u32) -> (text: String)
        ensures
            text@ == plain_text_rows(data@, cols as int, rows as int),
    {
        let mut output = String::new();
        let mut row: u32 = 0;
        while row < rows
            invariant
                row <= rows,
                output@ == plain_text_rows(data@, cols as int, row as int),
            decreases rows - row,
        {
            let ghost before = output@;
            let mut col: u32 = 0;
            while col < cols
                invariant
                    col <= cols,
                    output@ == before + plain_text_row(data@, cols as int, row as int, col as int),
                decreases cols - col,
            {
                match cell_word(data, cols, row, col) {
                    Some(packed) => {
                        let (_, _, _, char_index) = unpack_data(packed);
                        output.push(get_char(char_index));
                    },
                    None => {},
                }
                col += 1;
            }
            output.push('\n');
            row += 1;
        }
        output
    }

    /// The buffer as glyphs in colour. Each line sets a colour where it
    /// changes along the line, and ends by resetting it.
    pub fn frame_to_colored_string(&self, data: &[u32], cols: u32, rows: u32) -> (text: String)
        ensures
            text@ == colored_text_rows(data@, cols as int, rows as int),
    {
        let mut output = String::new();
        let mut row: u32 = 0;
        while row < rows
            invariant
                row <= rows,
                output@ == colored_text_rows(data@, cols as int, row as int),
            decreases rows - row,
        {
            let ghost before = output@;
            let mut last_color: Option<Rgb> = None;
            let mut col: u32 = 0;
            while col < cols
                invariant
                    col <= cols,
                    output@ == before + colored_text_row(
                        data@,
                        cols as int,
                        row as int,
                        col as int,
                    ),
                    last_color == colored_text_last(data@, cols as int, row as int, col as int),
                decreases cols - col,
            {
                match cell_word(data, cols, row, col) {
                    Some(packed) => {
                        let color = rgb_of(packed);
                        let (_, _, _, char_index) = unpack_data(packed);
                        if last_color != Some(color) {
                            push_foreground(&mut output, color);
                            last_color = Some(color);
                        }
                        output.push(get_char(char_index));
                    },
                    None => {},
                }
                col += 1;
            }
            output.append("\x1b[0m");
            output.push('\n');
            row += 1;
        }
        output
    }

    /// The buffer as half blocks, two buffer rows to a line. Each line ends
    /// by resetting the colours.
    pub fn frame_to_halfblock_string(&self, data: &[u32], cols: u32, rows: u32) -> (text: String)
        ensures
            text@ == half_text_rows(data@, cols as int, rows as int, rows as int / 2),
    {
        let height = rows / 2;
        let mut output = String::new();
        let mut text_row: u32 = 0;
        while text_row < height
            invariant
                text_row <= height,
                height == rows / 2,
                output@ == half_text_rows(data@, cols as int, rows as int, text_row as int),
            decreases height - text_row,
        {
            let ghost before = output@;
            let top_row = text_row * 2;
            let bottom_row = top_row + 1;
            let mut col: u32 = 0;
            while col < cols
                invariant
                    col <= cols,
                    top_row == 2 * text_row,
                    bottom_row == 2 * text_row + 1,
                    output@ == before + half_text_row(
                        data@,
                        cols as int,
                        rows as int,
                        text_row as int,
                        col as int,
                    ),
                decreases cols - col,
            {
                let top = cell_word(data, cols, top_row, col);
                let bottom = if bottom_row < rows {
                    cell_word(data, cols, bottom_row, col)
                } else {
                    None
                };
                push_foreground(&mut output, rgb_or_black(top));
                push_background(&mut output, rgb_or_black(bottom));
                output.push(UPPER_HALF_BLOCK);
                col += 1;
            }
            output.append("\x1b[0m");
            output.push('\n');
            text_row += 1;
        }
        output
    }
}

} // verus!
