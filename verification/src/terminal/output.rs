//! The presenter itself: the terminal's size as last seen, and the frames
//! drawn for it.

use super::frame::{
    cell_at, cell_rgb, color_or_black, colored_frame, colored_row, colored_row_last, colored_rows,
    colored_rows_last, content_rows, half_frame, half_row, half_rows, plain_frame, plain_row,
    plain_rows, UPPER_HALF_BLOCK,
};
use super::glyph::{get_char, unpack_data};
use super::ops::{in_mask, Mask, Rgb, TermOp};
use vstd::prelude::*;

verus! {

/// How a packed buffer is shown.
#[derive(Clone, Copy, Debug, PartialEq, Eq, Structural)]
pub enum RenderMode {
    PlainAscii,
    ColoredAscii,
    HalfBlock,
}

impl RenderMode {
    /// The mode's label.
    pub open spec fn label(self) -> Seq<char> {
        match self {
            RenderMode::PlainAscii => "Plain ASCII"@,
            RenderMode::ColoredAscii => "Colored ASCII"@,
            RenderMode::HalfBlock => "Half Block"@,
        }
    }

    /// The mode that follows this one: plain, coloured, half block, and
    /// round again.
    pub open spec fn successor(self) -> RenderMode {
        match self {
            RenderMode::PlainAscii => RenderMode::ColoredAscii,
            RenderMode::ColoredAscii => RenderMode::HalfBlock,
            RenderMode::HalfBlock => RenderMode::PlainAscii,
        }
    }

    /// The mode's label.
    pub fn name(&self) -> (s: &'static str)
        ensures
            s@ == self.label(),
    {
        match self {
            RenderMode::PlainAscii => "Plain ASCII",
            RenderMode::ColoredAscii => "Colored ASCII",
            RenderMode::HalfBlock => "Half Block",
        }
    }

    /// The mode that follows this one.
    pub fn next(&self) -> (mode: RenderMode)
        ensures
            mode == self.successor(),
    {
        match self {
            RenderMode::PlainAscii => RenderMode::ColoredAscii,
            RenderMode::ColoredAscii => RenderMode::HalfBlock,
            RenderMode::HalfBlock => RenderMode::PlainAscii,
        }
    }
}

/// Every mode leads to another, and three steps lead back to the first.
pub proof fn lemma_mode_cycle(mode: RenderMode)
    ensures
        mode.successor() != mode,
        mode.successor().successor() != mode,
        mode.successor().successor().successor() == mode,
{
}

/// Draws frames for a terminal whose size it remembers. The first terminal
/// row belongs to the status line; content starts on the second.
#[derive(Debug)]
pub struct TerminalRenderer {
    cols: u16,
    rows: u16,
}

/// The packed word of a cell, where the buffer holds it.
pub(crate) fn cell_word(data: &[u32], cols: u32, row: u32, col: u32) -> (cell: Option<u32>)
    ensures
        cell == cell_at(data@, cols as int, row as int, col as int),
{
    assert(row * cols <= 0xFFFF_FFFF * 0xFFFF_FFFF) by (nonlinear_arith)
        requires
            0 <= row <= 0xFFFF_FFFF,
            0 <= cols <= 0xFFFF_FFFF,
    ;
    let idx: u64 = row as u64 * cols as u64 + col as u64;
    if idx < data.len() as u64 {
        Some(data[idx as usize])
    } else {
        None
    }
}

/// The colour of a packed cell.
pub(crate) fn rgb_of(packed: u32) -> (color: Rgb)
    ensures
        color == cell_rgb(packed),
{
    let (r, g, b, _) = unpack_data(packed);
    Rgb { r, g, b }
}

/// The colour of a cell, black where there is none.
pub(crate) fn rgb_or_black(cell: Option<u32>) -> (color: Rgb)
    ensures
        color == color_or_black(cell),
{
    match cell {
        Some(packed) => rgb_of(packed),
        None => Rgb { r: 0, g: 0, b: 0 },
    }
}

impl TerminalRenderer {
    /// The terminal's width in columns, as last seen.
    pub closed spec fn cols(&self) -> u16 {
        self.cols
    }

    /// The terminal's height in rows, as last seen.
    pub closed spec fn rows(&self) -> u16 {
        self.rows
    }

    /// A presenter for a terminal of the given size.
    pub fn new(cols: u16, rows: u16) -> (term: Self)
        ensures
            term.cols() == cols,
            term.rows() == rows,
    {
        TerminalRenderer { cols, rows }
    }

    /// The size that content may take: every column, and every row but the
    /// status line's.
    pub fn content_size(&self) -> (size: (u16, u16))
        ensures
            size.0 == self.cols(),
            size.1 == content_rows(self.rows() as int),
    {
        (self.cols, if self.rows >= 1 { self.rows - 1 } else { 0 })
    }

    /// Takes note of the terminal's present size. Returns whether it differs
    /// from the size seen before, in which case the screen is to be cleared.
    pub fn check_resize(&mut self, new_cols: u16, new_rows: u16) -> (changed: bool)
        ensures
            changed == (new_cols != old(self).cols() || new_rows != old(self).rows()),
            final(self).cols() == new_cols,
            final(self).rows() == new_rows,
    {
        if new_cols != self.cols || new_rows != self.rows {
            self.cols = new_cols;
            self.rows = new_rows;
            true
        } else {
            false
        }
    }

    /// Whether a terminal position lies inside the mask.
    pub fn is_masked(&self, col: u16, row: u16, mask: Option<Mask>) -> (masked: bool)
        ensures
            masked == in_mask(col as int, row as int, mask),
    {
        match mask {
            Some((mask_col, mask_row, mask_w, mask_h)) => {
                col >= mask_col && (col as u32) < mask_col as u32 + mask_w as u32 && row >= mask_row
                    && (row as u32) < mask_row as u32 + mask_h as u32
            },
            None => false,
        }
    }

    fn push_plain_row(
        &self,
        ops: &mut Vec<TermOp>,
        data: &[u32],
        cols: u32,
        row: u32,
        width: u32,
        mask: Option<Mask>,
    )
        requires
            row < 0xFFFF,
            width <= 0xFFFF,
        ensures
            final(ops)@ == old(ops)@ + plain_row(data@, cols as int, row as int, width as int, mask),
    {
        let term_row = (row + 1) as u16;
        let mut col: u32 = 0;
        while col < width
            invariant
                col <= width <= 0xFFFF,
                term_row == row + 1,
                ops@ == old(ops)@ + plain_row(data@, cols as int, row as int, col as int, mask),
            decreases width - col,
        {
            if self.is_masked(col as u16, term_row, mask) {
                ops.push(TermOp::Print(' '));
            } else {
                match cell_word(data, cols, row, col) {
                    Some(packed) => {
                        let (_, _, _, char_index) = unpack_data(packed);
                        ops.push(TermOp::Print(get_char(char_index)));
                    },
                    None => {},
                }
            }
            col += 1;
        }
    }

    /// Plain mode: one glyph for each cell, no colour.
    pub fn render_plain_ascii(&self, data: &[u32], cols: u32, rows: u32, mask: Option<Mask>) -> (ops:
        Vec<TermOp>)
        ensures
            ops@ == plain_frame(
                data@,
                cols as int,
                rows as int,
                self.cols() as int,
                self.rows() as int,
                mask,
            ),
    {
        let (term_cols, term_rows) = self.content_size();
        let height = if rows < term_rows as u32 { rows } else { term_rows as u32 };
        let width = if cols < term_cols as u32 { cols } else { term_cols as u32 };
        let mut ops: Vec<TermOp> = Vec::new();
        ops.push(TermOp::MoveTo(0, 1));
        let mut row: u32 = 0;
        while row < height
            invariant
                row <= height < 0xFFFF,
                width <= 0xFFFF,
                ops@ == seq![TermOp::MoveTo(0, 1)] + plain_rows(
                    data@,
                    cols as int,
                    row as int,
                    width as int,
                    height as int,
                    mask,
                ),
            decreases height - row,
        {
            self.push_plain_row(&mut ops, data, cols, row, width, mask);
            if row < height - 1 {
                ops.push(TermOp::LineBreak);
            }
            row += 1;
        }
        ops
    }

    fn push_colored_row(
        &self,
        ops: &mut Vec<TermOp>,
        data: &[u32],
        cols: u32,
        row: u32,
        width: u32,
        mask: Option<Mask>,
        last: Option<Rgb>,
    ) -> (next: Option<Rgb>)
        requires
            row < 0xFFFF,
            width <= 0xFFFF,
        ensures
            final(ops)@ == old(ops)@ + colored_row(
                data@,
                cols as int,
                row as int,
                width as int,
                mask,
                last,
            ),
            next == colored_row_last(data@, cols as int, row as int, width as int, mask, last),
    {
        let term_row = (row + 1) as u16;
        let mut last_color = last;
        let mut col: u32 = 0;
        while col < width
            invariant
                col <= width <= 0xFFFF,
                term_row == row + 1,
                ops@ == old(ops)@ + colored_row(
                    data@,
                    cols as int,
                    row as int,
                    col as int,
                    mask,
                    last,
                ),
                last_color == colored_row_last(
                    data@,
                    cols as int,
                    row as int,
                    col as int,
                    mask,
                    last,
                ),
            decreases width - col,
        {
            if self.is_masked(col as u16, term_row, mask) {
                ops.push(TermOp::ResetColor);
                ops.push(TermOp::Print(' '));
                last_color = None;
            } else {
                match cell_word(data, cols, row, col) {
                    Some(packed) => {
                        let color = rgb_of(packed);
                        let (_, _, _, char_index) = unpack_data(packed);
                        if last_color != Some(color) {
                            ops.push(TermOp::SetForeground(color));
                            last_color = Some(color);
                        }
                        ops.push(TermOp::Print(get_char(char_index)));
                    },
                    None => {},
                }
            }
            col += 1;
        }
        last_color
    }

    /// Coloured mode: one glyph for each cell in its 24-bit colour. A colour
    /// is set only where it changes from one printed cell to the next.
    pub fn render_colored_ascii(&self, data: &[u32], cols: u32, rows: u32, mask: Option<Mask>) -> (ops:
        Vec<TermOp>)
        ensures
            ops@ == colored_frame(
                data@,
                cols as int,
                rows as int,
                self.cols() as int,
                self.rows() as int,
                mask,
            ),
    {
        let (term_cols, term_rows) = self.content_size();
        let height = if rows < term_rows as u32 { rows } else { term_rows as u32 };
        let width = if cols < term_cols as u32 { cols } else { term_cols as u32 };
        let mut ops: Vec<TermOp> = Vec::new();
        ops.push(TermOp::MoveTo(0, 1));
        let mut last_color: Option<Rgb> = None;
        let mut row: u32 = 0;
        while row < height
            invariant
                row <= height < 0xFFFF,
                width <= 0xFFFF,
                ops@ == seq![TermOp::MoveTo(0, 1)] + colored_rows(
                    data@,
                    cols as int,
                    row as int,
                    width as int,
                    height as int,
                    mask,
                ),
                last_color == colored_rows_last(
                    data@,
                    cols as int,
                    row as int,
                    width as int,
                    mask,
                ),
            decreases height - row,
        {
            last_color = self.push_colored_row(&mut ops, data, cols, row, width, mask, last_color);
            if row < height - 1 {
                ops.push(TermOp::LineBreak);
            }
            row += 1;
        }
        ops.push(TermOp::ResetColor);
        ops
    }

    fn push_half_row(
        &self,
        ops: &mut Vec<TermOp>,
        data: &[u32],
        cols: u32,
        rows: u32,
        term_row: u32,
        width: u32,
        mask: Option<Mask>,
    )
        requires
            term_row < 0xFFFF,
            width <= 0xFFFF,
        ensures
            final(ops)@ == old(ops)@ + half_row(
                data@,
                cols as int,
                rows as int,
                term_row as int,
                width as int,
                mask,
            ),
    {
        let actual_term_row = (term_row + 1) as u16;
        let top_row = term_row * 2;
        let bottom_row = top_row + 1;
        let mut col: u32 = 0;
        while col < width
            invariant
                col <= width <= 0xFFFF,
                actual_term_row == term_row + 1,
                top_row == 2 * term_row,
                bottom_row == 2 * term_row + 1,
                ops@ == old(ops)@ + half_row(
                    data@,
                    cols as int,
                    rows as int,
                    term_row as int,
                    col as int,
                    mask,
                ),
            decreases width - col,
        {
            if self.is_masked(col as u16, actual_term_row, mask) {
                ops.push(TermOp::ResetColor);
                ops.push(TermOp::Print(' '));
            } else {
                let top = cell_word(data, cols, top_row, col);
                let bottom = if bottom_row < rows {
                    cell_word(data, cols, bottom_row, col)
                } else {
                    None
                };
                ops.push(TermOp::SetForeground(rgb_or_black(top)));
                ops.push(TermOp::SetBackground(rgb_or_black(bottom)));
                ops.push(TermOp::Print(UPPER_HALF_BLOCK));
            }
            col += 1;
        }
    }

    /// Half-block mode: each terminal cell shows two buffer rows, the upper
    /// as the foreground and the lower as the background of an upper half
    /// block.
    pub fn render_half_block(&self, data: &[u32], cols: u32, rows: u32, mask: Option<Mask>) -> (ops:
        Vec<TermOp>)
        ensures
            ops@ == half_frame(
                data@,
                cols as int,
                rows as int,
                self.cols() as int,
                self.rows() as int,
                mask,
            ),
    {
        let (term_cols, term_rows) = self.content_size();
        let height = if rows / 2 < term_rows as u32 { rows / 2 } else { term_rows as u32 };
        let width = if cols < term_cols as u32 { cols } else { term_cols as u32 };
        let mut ops: Vec<TermOp> = Vec::new();
        ops.push(TermOp::MoveTo(0, 1));
        let mut term_row: u32 = 0;
        while term_row < height
            invariant
                term_row <= height < 0xFFFF,
                width <= 0xFFFF,
                ops@ == seq![TermOp::MoveTo(0, 1)] + half_rows(
                    data@,
                    cols as int,
                    rows as int,
                    term_row as int,
                    width as int,
                    height as int,
                    mask,
                ),
            decreases height - term_row,
        {
            self.push_half_row(&mut ops, data, cols, rows, term_row, width, mask);
            ops.push(TermOp::ResetColor);
            if term_row < height - 1 {
                ops.push(TermOp::LineBreak);
            }
            term_row += 1;
        }
        ops.push(TermOp::ResetColor);
        ops
    }

    /// Draws one frame in the given mode. The frame is clipped to the smaller
    /// of the buffer's size and the content size; cells under the mask are
    /// left blank whatever the buffer holds.
    pub fn render(
        &self,
        data: &[u32],
        cols: u32,
        rows: u32,
        mode: RenderMode,
        mask: Option<Mask>,
    ) -> (ops: Vec<TermOp>)
        ensures
            ops@ == frame(
                mode,
                data@,
                cols as int,
                rows as int,
                self.cols() as int,
                self.rows() as int,
                mask,
            ),
    {
        match mode {
            RenderMode::PlainAscii => self.render_plain_ascii(data, cols, rows, mask),
            RenderMode::ColoredAscii => self.render_colored_ascii(data, cols, rows, mask),
            RenderMode::HalfBlock => self.render_half_block(data, cols, rows, mask),
        }
    }
}

/// The frame that a mode draws.
pub open spec fn frame(
    mode: RenderMode,
    data: Seq<u32>,
    cols: int,
    rows: int,
    term_cols: int,
    term_rows: int,
    mask: Option<Mask>,
) -> Seq<TermOp> {
    match mode {
        RenderMode::PlainAscii => plain_frame(data, cols, rows, term_cols, term_rows, mask),
        RenderMode::ColoredAscii => colored_frame(data, cols, rows, term_cols, term_rows, mask),
        RenderMode::HalfBlock => half_frame(data, cols, rows, term_cols, term_rows, mask),
    }
}

} // verus!
