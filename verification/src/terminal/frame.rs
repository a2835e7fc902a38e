//! What each presentation mode puts on the terminal for a packed buffer.
//!
//! A frame is described cell by cell: a row is the run of its cells from left
//! to right, and a frame is the run of its rows from top to bottom. The packed
//! buffer is read row-major; a cell whose index lies past the buffer's end
//! does not exist and is never read.

use super::glyph::{cell_blue, cell_glyph, cell_green, cell_red, glyph_char};
use super::ops::{in_mask, Mask, Rgb, TermOp};
use vstd::prelude::*;

verus! {

/// The upper half block, whose foreground fills the upper half of a terminal
/// cell and whose background fills the lower half.
pub const UPPER_HALF_BLOCK: char = '\u{2580}';

/// The rows of a terminal that are left for content once the status line has
/// taken the first.
pub open spec fn content_rows(term_rows: int) -> int {
    if term_rows >= 1 {
        term_rows - 1
    } else {
        0
    }
}

/// The smaller of two numbers.
pub open spec fn least(a: int, b: int) -> int {
    if a <= b {
        a
    } else {
        b
    }
}

/// How many buffer rows a frame shows in the modes with one buffer row to a
/// terminal row.
pub open spec fn frame_height(rows: int, term_rows: int) -> int {
    least(rows, content_rows(term_rows))
}

/// How many terminal rows a half-block frame takes: two buffer rows share
/// one.
pub open spec fn half_frame_height(rows: int, term_rows: int) -> int {
    least(rows / 2, content_rows(term_rows))
}

/// How many buffer columns a frame shows.
pub open spec fn frame_width(cols: int, term_cols: int) -> int {
    least(cols, term_cols)
}

/// The packed word of the cell at a row and a column of a buffer that is
/// `cols` cells wide, where the buffer holds one.
pub open spec fn cell_at(data: Seq<u32>, cols: int, row: int, col: int) -> Option<u32> {
    let idx = row * cols + col;
    if 0 <= idx < data.len() {
        Some(data[idx])
    } else {
        None
    }
}

/// The colour of a cell, black where there is none.
pub open spec fn color_or_black(cell: Option<u32>) -> Rgb {
    match cell {
        Some(packed) => cell_rgb(packed),
        None => Rgb { r: 0, g: 0, b: 0 },
    }
}

/// The colour of a packed cell.
pub open spec fn cell_rgb(packed: u32) -> Rgb {
    Rgb { r: cell_red(packed), g: cell_green(packed), b: cell_blue(packed) }
}

/// The line break that parts a row from the next; the last row has none.
pub open spec fn row_break(row: int, height: int) -> Seq<TermOp> {
    if row < height - 1 {
        seq![TermOp::LineBreak]
    } else {
        Seq::empty()
    }
}

// ---------------------------------------------------------------------------
// Plain mode

/// One cell without colour: a blank under the mask, else the cell's glyph,
/// and nothing where the buffer has no such cell.
pub open spec fn plain_cell(cell: Option<u32>, masked: bool) -> Seq<TermOp> {
    if masked {
        seq![TermOp::Print(' ')]
    } else {
        match cell {
            Some(packed) => seq![TermOp::Print(glyph_char(cell_glyph(packed)))],
            None => Seq::empty(),
        }
    }
}

/// The first `width` cells of a buffer row in plain mode. The row is shown
/// on terminal row `row + 1`.
pub open spec fn plain_row(data: Seq<u32>, cols: int, row: int, width: int, mask: Option<Mask>) -> Seq<
    TermOp,
>
    decreases width,
{
    if width <= 0 {
        Seq::empty()
    } else {
        plain_row(data, cols, row, width - 1, mask) + plain_cell(
            cell_at(data, cols, row, width - 1),
            in_mask(width - 1, row + 1, mask),
        )
    }
}

/// The first `count` rows of a plain frame that is `height` rows high.
pub open spec fn plain_rows(
    data: Seq<u32>,
    cols: int,
    count: int,
    width: int,
    height: int,
    mask: Option<Mask>,
) -> Seq<TermOp>
    decreases count,
{
    if count <= 0 {
        Seq::empty()
    } else {
        plain_rows(data, cols, count - 1, width, height, mask) + plain_row(
            data,
            cols,
            count - 1,
            width,
            mask,
        ) + row_break(count - 1, height)
    }
}

/// A whole frame in plain mode on a terminal of the given size.
pub open spec fn plain_frame(
    data: Seq<u32>,
    cols: int,
    rows: int,
    term_cols: int,
    term_rows: int,
    mask: Option<Mask>,
) -> Seq<TermOp> {
    let height = frame_height(rows, term_rows);
    let width = frame_width(cols, term_cols);
    seq![TermOp::MoveTo(0, 1)] + plain_rows(data, cols, height, width, height, mask)
}

// ---------------------------------------------------------------------------
// Coloured mode

/// One cell in colour, given the colour that the terminal was last told to
/// use (`None` where it has to be told anew). A cell under the mask is a
/// blank in the default colours. Any other cell sets its colour only where
/// that differs from the last, and then prints its glyph.
pub open spec fn colored_cell(cell: Option<u32>, masked: bool, last: Option<Rgb>) -> Seq<TermOp> {
    if masked {
        seq![TermOp::ResetColor, TermOp::Print(' ')]
    } else {
        match cell {
            Some(packed) => {
                let glyph = seq![TermOp::Print(glyph_char(cell_glyph(packed)))];
                if last != Some(cell_rgb(packed)) {
                    seq![TermOp::SetForeground(cell_rgb(packed))] + glyph
                } else {
                    glyph
                }
            },
            None => Seq::empty(),
        }
    }
}

/// The colour in force after a cell: none after a masked cell, the cell's
/// own after a cell that was printed, and the one before it otherwise.
pub open spec fn colored_next(cell: Option<u32>, masked: bool, last: Option<Rgb>) -> Option<Rgb> {
    if masked {
        None
    } else {
        match cell {
            Some(packed) => Some(cell_rgb(packed)),
            None => last,
        }
    }
}

/// The colour in force after the first `width` cells of a row that was
/// entered with `last`.
pub open spec fn colored_row_last(
    data: Seq<u32>,
    cols: int,
    row: int,
    width: int,
    mask: Option<Mask>,
    last: Option<Rgb>,
) -> Option<Rgb>
    decreases width,
{
    if width <= 0 {
        last
    } else {
        colored_next(
            cell_at(data, cols, row, width - 1),
            in_mask(width - 1, row + 1, mask),
            colored_row_last(data, cols, row, width - 1, mask, last),
        )
    }
}

/// The first `width` cells of a buffer row in coloured mode, entered with
/// `last`.
pub open spec fn colored_row(
    data: Seq<u32>,
    cols: int,
    row: int,
    width: int,
    mask: Option<Mask>,
    last: Option<Rgb>,
) -> Seq<TermOp>
    decreases width,
{
    if width <= 0 {
        Seq::empty()
    } else {
        colored_row(data, cols, row, width - 1, mask, last) + colored_cell(
            cell_at(data, cols, row, width - 1),
            in_mask(width - 1, row + 1, mask),
            colored_row_last(data, cols, row, width - 1, mask, last),
        )
    }
}

/// The colour in force after the first `count` rows of a coloured frame. It
/// is carried from each row into the next.
pub open spec fn colored_rows_last(
    data: Seq<u32>,
    cols: int,
    count: int,
    width: int,
    mask: Option<Mask>,
) -> Option<Rgb>
    decreases count,
{
    if count <= 0 {
        None
    } else {
        colored_row_last(
            data,
            cols,
            count - 1,
            width,
            mask,
            colored_rows_last(data, cols, count - 1, width, mask),
        )
    }
}

/// The first `count` rows of a coloured frame that is `height` rows high.
pub open spec fn colored_rows(
    data: Seq<u32>,
    cols: int,
    count: int,
    width: int,
    height: int,
    mask: Option<Mask>,
) -> Seq<TermOp>
    decreases count,
{
    if count <= 0 {
        Seq::empty()
    } else {
        colored_rows(data, cols, count - 1, width, height, mask) + colored_row(
            data,
            cols,
            count - 1,
            width,
            mask,
            colored_rows_last(data, cols, count - 1, width, mask),
        ) + row_break(count - 1, height)
    }
}

/// A whole frame in coloured mode on a terminal of the given size. It ends
/// by resetting the colours.
pub open spec fn colored_frame(
    data: Seq<u32>,
    cols: int,
    rows: int,
    term_cols: int,
    term_rows: int,
    mask: Option<Mask>,
) -> Seq<TermOp> {
    let height = frame_height(rows, term_rows);
    let width = frame_width(cols, term_cols);
    seq![TermOp::MoveTo(0, 1)] + colored_rows(data, cols, height, width, height, mask)
        + seq![TermOp::ResetColor]
}

// ---------------------------------------------------------------------------
// Half-block mode

/// One terminal cell of a half-block frame: a blank in the default colours
/// under the mask, else the upper half block with the upper cell's colour as
/// foreground and the lower cell's as background.
pub open spec fn half_cell(top: Option<u32>, bottom: Option<u32>, masked: bool) -> Seq<TermOp> {
    if masked {
        seq![TermOp::ResetColor, TermOp::Print(' ')]
    } else {
        seq![
            TermOp::SetForeground(color_or_black(top)),
            TermOp::SetBackground(color_or_black(bottom)),
            TermOp::Print(UPPER_HALF_BLOCK),
        ]
    }
}

/// The lower of the two cells that share a terminal cell: the one on buffer
/// row `2 * term_row + 1`, if the image has that row.
pub open spec fn lower_cell(data: Seq<u32>, cols: int, rows: int, term_row: int, col: int) -> Option<
    u32,
> {
    if 2 * term_row + 1 < rows {
        cell_at(data, cols, 2 * term_row + 1, col)
    } else {
        None
    }
}

/// The first `width` cells of terminal row `term_row + 1` of a half-block
/// frame, made of the buffer rows `2 * term_row` and `2 * term_row + 1`.
pub open spec fn half_row(
    data: Seq<u32>,
    cols: int,
    rows: int,
    term_row: int,
    width: int,
    mask: Option<Mask>,
) -> Seq<TermOp>
    decreases width,
{
    if width <= 0 {
        Seq::empty()
    } else {
        half_row(data, cols, rows, term_row, width - 1, mask) + half_cell(
            cell_at(data, cols, 2 * term_row, width - 1),
            lower_cell(data, cols, rows, term_row, width - 1),
            in_mask(width - 1, term_row + 1, mask),
        )
    }
}

/// The first `count` terminal rows of a half-block frame that is `height`
/// terminal rows high. Each row ends by resetting the colours.
pub open spec fn half_rows(
    data: Seq<u32>,
    cols: int,
    rows: int,
    count: int,
    width: int,
    height: int,
    mask: Option<Mask>,
) -> Seq<TermOp>
    decreases count,
{
    if count <= 0 {
        Seq::empty()
    } else {
        half_rows(data, cols, rows, count - 1, width, height, mask) + half_row(
            data,
            cols,
            rows,
            count - 1,
            width,
            mask,
        ) + seq![TermOp::ResetColor] + row_break(count - 1, height)
    }
}

/// A whole frame in half-block mode on a terminal of the given size.
pub open spec fn half_frame(
    data: Seq<u32>,
    cols: int,
    rows: int,
    term_cols: int,
    term_rows: int,
    mask: Option<Mask>,
) -> Seq<TermOp> {
    let height = half_frame_height(rows, term_rows);
    let width = frame_width(cols, term_cols);
    seq![TermOp::MoveTo(0, 1)] + half_rows(data, cols, rows, height, width, height, mask)
        + seq![TermOp::ResetColor]
}

} // verus!
