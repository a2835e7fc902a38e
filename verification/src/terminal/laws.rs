//! What holds of every frame: which cells a frame reads, and what the mask
//! does to the cells under it.

use super::frame::{
    cell_at, cell_rgb, colored_cell, colored_frame, colored_next, colored_row, colored_row_last,
    colored_rows, colored_rows_last, content_rows, frame_height, frame_width, half_cell,
    half_frame, half_frame_height, half_row, half_rows, lower_cell, plain_cell, plain_frame,
    plain_row, plain_rows, row_break,
};
use super::glyph::{cell_glyph, glyph_char};
use super::ops::{in_mask, Mask, Rgb, TermOp};
use vstd::prelude::*;

verus! {

/// In a buffer that holds `cols * rows` cells, every cell on a row below
/// `rows` and a column below `cols` exists: its index lies inside the
/// buffer.
pub proof fn lemma_cell_in_buffer(data: Seq<u32>, cols: int, rows: int, row: int, col: int)
    requires
        data.len() == cols * rows,
        0 <= row < rows,
        0 <= col < cols,
    ensures
        0 <= row * cols + col < data.len(),
        cell_at(data, cols, row, col) == Some(data[row * cols + col]),
{
    assert(0 <= row * cols && row * cols + cols <= cols * rows) by (nonlinear_arith)
        requires
            0 <= row < rows,
            0 <= cols,
    ;
}

/// A cell is read only where its index lies inside the buffer; where it
/// does not, there is no cell, whatever the buffer's length.
pub proof fn lemma_cell_outside_buffer(data: Seq<u32>, cols: int, row: int, col: int)
    requires
        !(0 <= row * cols + col < data.len()),
    ensures
        cell_at(data, cols, row, col) is None,
{
}

/// A frame never shows more rows or columns than the buffer has, nor more
/// than the terminal has left for content.
pub proof fn lemma_frame_clipped(cols: int, rows: int, term_cols: int, term_rows: int)
    requires
        0 <= cols,
        0 <= rows,
        0 <= term_cols,
        0 <= term_rows,
    ensures
        0 <= frame_width(cols, term_cols) <= cols,
        frame_width(cols, term_cols) <= term_cols,
        0 <= frame_height(rows, term_rows) <= rows,
        frame_height(rows, term_rows) <= content_rows(term_rows),
        0 <= half_frame_height(rows, term_rows) <= rows / 2,
        half_frame_height(rows, term_rows) <= content_rows(term_rows),
{
}

/// A frame over a buffer that holds `cols * rows` cells finds every cell it
/// shows in the buffer.
pub proof fn lemma_frame_cells_in_buffer(
    data: Seq<u32>,
    cols: int,
    rows: int,
    term_cols: int,
    term_rows: int,
    row: int,
    col: int,
)
    requires
        data.len() == cols * rows,
        0 <= row < frame_height(rows, term_rows),
        0 <= col < frame_width(cols, term_cols),
    ensures
        cell_at(data, cols, row, col) is Some,
{
    lemma_cell_in_buffer(data, cols, rows, row, col);
}

/// A half-block frame over a buffer that holds `cols * rows` cells finds
/// both cells of every terminal cell it shows in the buffer.
pub proof fn lemma_half_frame_cells_in_buffer(
    data: Seq<u32>,
    cols: int,
    rows: int,
    term_cols: int,
    term_rows: int,
    term_row: int,
    col: int,
)
    requires
        data.len() == cols * rows,
        0 <= term_row < half_frame_height(rows, term_rows),
        0 <= col < frame_width(cols, term_cols),
    ensures
        cell_at(data, cols, 2 * term_row, col) is Some,
        lower_cell(data, cols, rows, term_row, col) is Some,
{
    lemma_cell_in_buffer(data, cols, rows, 2 * term_row, col);
    lemma_cell_in_buffer(data, cols, rows, 2 * term_row + 1, col);
}

/// Both buffer rows that a terminal row of a half-block frame shows are
/// rows of the image: the frame looks at no row from `rows` on.
pub proof fn lemma_half_rows_in_image(
    data: Seq<u32>,
    cols: int,
    rows: int,
    term_rows: int,
    term_row: int,
    col: int,
)
    requires
        0 <= rows,
        0 <= term_row < half_frame_height(rows, term_rows),
    ensures
        2 * term_row + 1 < rows,
        lower_cell(data, cols, rows, term_row, col) == cell_at(data, cols, 2 * term_row + 1, col),
{
}

/// Under the mask a cell is a blank in every mode, whatever the buffer
/// holds, and after it no colour is in force.
pub proof fn lemma_masked_cell_is_blank(
    cell: Option<u32>,
    lower: Option<u32>,
    last: Option<Rgb>,
)
    ensures
        plain_cell(cell, true) == seq![TermOp::Print(' ')],
        colored_cell(cell, true, last) == seq![TermOp::ResetColor, TermOp::Print(' ')],
        half_cell(cell, lower, true) == seq![TermOp::ResetColor, TermOp::Print(' ')],
        colored_next(cell, true, last) is None,
{
}

/// A plain row starts with its own first cells.
pub proof fn lemma_plain_row_prefix(
    data: Seq<u32>,
    cols: int,
    row: int,
    shorter: int,
    width: int,
    mask: Option<Mask>,
)
    requires
        0 <= shorter <= width,
    ensures
        plain_row(data, cols, row, shorter, mask).is_prefix_of(
            plain_row(data, cols, row, width, mask),
        ),
    decreases width - shorter,
{
    if shorter < width {
        lemma_plain_row_prefix(data, cols, row, shorter + 1, width, mask);
    }
}

/// A coloured row starts with its own first cells.
pub proof fn lemma_colored_row_prefix(
    data: Seq<u32>,
    cols: int,
    row: int,
    shorter: int,
    width: int,
    mask: Option<Mask>,
    last: Option<Rgb>,
)
    requires
        0 <= shorter <= width,
    ensures
        colored_row(data, cols, row, shorter, mask, last).is_prefix_of(
            colored_row(data, cols, row, width, mask, last),
        ),
    decreases width - shorter,
{
    if shorter < width {
        lemma_colored_row_prefix(data, cols, row, shorter + 1, width, mask, last);
    }
}

/// A half-block row starts with its own first cells.
pub proof fn lemma_half_row_prefix(
    data: Seq<u32>,
    cols: int,
    rows: int,
    term_row: int,
    shorter: int,
    width: int,
    mask: Option<Mask>,
)
    requires
        0 <= shorter <= width,
    ensures
        half_row(data, cols, rows, term_row, shorter, mask).is_prefix_of(
            half_row(data, cols, rows, term_row, width, mask),
        ),
    decreases width - shorter,
{
    if shorter < width {
        lemma_half_row_prefix(data, cols, rows, term_row, shorter + 1, width, mask);
    }
}

/// In a plain row, a blank stands where a masked cell is: right behind what
/// the cells before it gave.
pub proof fn lemma_plain_row_blank_under_mask(
    data: Seq<u32>,
    cols: int,
    row: int,
    col: int,
    width: int,
    mask: Option<Mask>,
)
    requires
        0 <= col < width,
        in_mask(col, row + 1, mask),
    ensures
        ({
            let at = plain_row(data, cols, row, col, mask).len() as int;
            let shown = plain_row(data, cols, row, width, mask);
            &&& at + 1 <= shown.len()
            &&& shown[at] == TermOp::Print(' ')
        }),
{
    lemma_plain_row_prefix(data, cols, row, col + 1, width, mask);
    let before = plain_row(data, cols, row, col, mask);
    let through = plain_row(data, cols, row, col + 1, mask);
    assert(through == before + seq![TermOp::Print(' ')]);
    assert(through[before.len() as int] == TermOp::Print(' '));
}

/// In a coloured row, a colour reset and a blank stand where a masked cell
/// is.
pub proof fn lemma_colored_row_blank_under_mask(
    data: Seq<u32>,
    cols: int,
    row: int,
    col: int,
    width: int,
    mask: Option<Mask>,
    last: Option<Rgb>,
)
    requires
        0 <= col < width,
        in_mask(col, row + 1, mask),
    ensures
        ({
            let at = colored_row(data, cols, row, col, mask, last).len() as int;
            let shown = colored_row(data, cols, row, width, mask, last);
            &&& at + 2 <= shown.len()
            &&& shown[at] == TermOp::ResetColor
            &&& shown[at + 1] == TermOp::Print(' ')
        }),
{
    lemma_colored_row_prefix(data, cols, row, col + 1, width, mask, last);
    let before = colored_row(data, cols, row, col, mask, last);
    let through = colored_row(data, cols, row, col + 1, mask, last);
    assert(through == before + seq![TermOp::ResetColor, TermOp::Print(' ')]);
    assert(through[before.len() as int] == TermOp::ResetColor);
    assert(through[before.len() as int + 1] == TermOp::Print(' '));
}

/// In a half-block row, a colour reset and a blank stand where a masked
/// cell is.
pub proof fn lemma_half_row_blank_under_mask(
    data: Seq<u32>,
    cols: int,
    rows: int,
    term_row: int,
    col: int,
    width: int,
    mask: Option<Mask>,
)
    requires
        0 <= col < width,
        in_mask(col, term_row + 1, mask),
    ensures
        ({
            let at = half_row(data, cols, rows, term_row, col, mask).len() as int;
            let shown = half_row(data, cols, rows, term_row, width, mask);
            &&& at + 2 <= shown.len()
            &&& shown[at] == TermOp::ResetColor
            &&& shown[at + 1] == TermOp::Print(' ')
        }),
{
    lemma_half_row_prefix(data, cols, rows, term_row, col + 1, width, mask);
    let before = half_row(data, cols, rows, term_row, col, mask);
    let through = half_row(data, cols, rows, term_row, col + 1, mask);
    assert(through == before + seq![TermOp::ResetColor, TermOp::Print(' ')]);
    assert(through[before.len() as int] == TermOp::ResetColor);
    assert(through[before.len() as int + 1] == TermOp::Print(' '));
}

proof fn lemma_plain_rows_prefix_of(
    data: Seq<u32>,
    cols: int,
    fewer: int,
    count: int,
    width: int,
    height: int,
    mask: Option<Mask>,
)
    requires
        0 <= fewer <= count,
    ensures
        plain_rows(data, cols, fewer, width, height, mask).is_prefix_of(
            plain_rows(data, cols, count, width, height, mask),
        ),
    decreases count - fewer,
{
    if fewer < count {
        lemma_plain_rows_prefix_of(data, cols, fewer + 1, count, width, height, mask);
    }
}

proof fn lemma_colored_rows_prefix_of(
    data: Seq<u32>,
    cols: int,
    fewer: int,
    count: int,
    width: int,
    height: int,
    mask: Option<Mask>,
)
    requires
        0 <= fewer <= count,
    ensures
        colored_rows(data, cols, fewer, width, height, mask).is_prefix_of(
            colored_rows(data, cols, count, width, height, mask),
        ),
    decreases count - fewer,
{
    if fewer < count {
        lemma_colored_rows_prefix_of(data, cols, fewer + 1, count, width, height, mask);
    }
}

proof fn lemma_half_rows_prefix_of(
    data: Seq<u32>,
    cols: int,
    rows: int,
    fewer: int,
    count: int,
    width: int,
    height: int,
    mask: Option<Mask>,
)
    requires
        0 <= fewer <= count,
    ensures
        half_rows(data, cols, rows, fewer, width, height, mask).is_prefix_of(
            half_rows(data, cols, rows, count, width, height, mask),
        ),
    decreases count - fewer,
{
    if fewer < count {
        lemma_half_rows_prefix_of(data, cols, rows, fewer + 1, count, width, height, mask);
    }
}

/// Where in a plain frame the cell at `row` and `col` begins: behind the
/// cursor move, the rows above and the cells to the left.
pub open spec fn plain_cell_start(
    data: Seq<u32>,
    cols: int,
    rows: int,
    term_cols: int,
    term_rows: int,
    mask: Option<Mask>,
    row: int,
    col: int,
) -> int {
    let height = frame_height(rows, term_rows);
    let width = frame_width(cols, term_cols);
    1int + plain_rows(data, cols, row, width, height, mask).len() + plain_row(
        data,
        cols,
        row,
        col,
        mask,
    ).len()
}

/// Where in a coloured frame the cell at `row` and `col` begins.
pub open spec fn colored_cell_start(
    data: Seq<u32>,
    cols: int,
    rows: int,
    term_cols: int,
    term_rows: int,
    mask: Option<Mask>,
    row: int,
    col: int,
) -> int {
    let height = frame_height(rows, term_rows);
    let width = frame_width(cols, term_cols);
    1int + colored_rows(data, cols, row, width, height, mask).len() + colored_row(
        data,
        cols,
        row,
        col,
        mask,
        colored_rows_last(data, cols, row, width, mask),
    ).len()
}

/// Where in a half-block frame the terminal cell at `term_row` and `col`
/// begins.
pub open spec fn half_cell_start(
    data: Seq<u32>,
    cols: int,
    rows: int,
    term_cols: int,
    term_rows: int,
    mask: Option<Mask>,
    term_row: int,
    col: int,
) -> int {
    let height = half_frame_height(rows, term_rows);
    let width = frame_width(cols, term_cols);
    1int + half_rows(data, cols, rows, term_row, width, height, mask).len() + half_row(
        data,
        cols,
        rows,
        term_row,
        col,
        mask,
    ).len()
}

/// Where a cell's steps stand in a frame, given how the frame is put
/// together: one step, then the rows; among the rows first those above, then
/// the cell's own row; in that row first the cells to the left, then the
/// cell.
proof fn lemma_cell_in_frame(
    shown: Seq<TermOp>,
    all_rows: Seq<TermOp>,
    through: Seq<TermOp>,
    above: Seq<TermOp>,
    line: Seq<TermOp>,
    left: Seq<TermOp>,
    cell: Seq<TermOp>,
    k: int,
)
    requires
        shown.len() >= 1 + all_rows.len(),
        shown.subrange(1, 1 + all_rows.len() as int) == all_rows,
        through.is_prefix_of(all_rows),
        (above + line).is_prefix_of(through),
        (left + cell).is_prefix_of(line),
        0 <= k < cell.len(),
    ensures
        0 <= 1 + above.len() + left.len() + k < shown.len(),
        shown[1 + above.len() + left.len() + k] == cell[k],
{
    let at = above.len() + left.len() + k;
    assert((left + cell)[left.len() + k] == cell[k]);
    assert(line[left.len() + k] == cell[k]);
    assert((above + line)[at] == line[left.len() + k]);
    assert(through[at] == cell[k]);
    assert(all_rows[at] == cell[k]);
    assert(shown.subrange(1, 1 + all_rows.len() as int)[at] == shown[1 + at]);
}

/// A frame holds its rows right behind its first step.
proof fn lemma_rows_in_frame(shown: Seq<TermOp>, first: TermOp, all_rows: Seq<TermOp>, end: Seq<TermOp>)
    requires
        shown == seq![first] + all_rows + end,
    ensures
        shown.len() >= 1 + all_rows.len(),
        shown.subrange(1, 1 + all_rows.len() as int) == all_rows,
{
    assert(shown.subrange(1, 1 + all_rows.len() as int) =~= all_rows);
}

/// What comes first in a run of steps is a start of the run.
proof fn lemma_starts(head: Seq<TermOp>, rest: Seq<TermOp>)
    ensures
        head.is_prefix_of(head + rest),
{
}

/// In a plain frame every cell under the mask is a blank, whatever the
/// buffer holds.
pub proof fn lemma_plain_frame_blank_under_mask(
    data: Seq<u32>,
    cols: int,
    rows: int,
    term_cols: int,
    term_rows: int,
    mask: Option<Mask>,
    row: int,
    col: int,
)
    requires
        0 <= row < frame_height(rows, term_rows),
        0 <= col < frame_width(cols, term_cols),
        in_mask(col, row + 1, mask),
    ensures
        ({
            let shown = plain_frame(data, cols, rows, term_cols, term_rows, mask);
            let at = plain_cell_start(data, cols, rows, term_cols, term_rows, mask, row, col);
            &&& 0 <= at < shown.len()
            &&& shown[at] == TermOp::Print(' ')
        }),
{
    let height = frame_height(rows, term_rows);
    let width = frame_width(cols, term_cols);
    let shown = plain_frame(data, cols, rows, term_cols, term_rows, mask);
    let all_rows = plain_rows(data, cols, height, width, height, mask);
    let above = plain_rows(data, cols, row, width, height, mask);
    let through = plain_rows(data, cols, row + 1, width, height, mask);
    let line = plain_row(data, cols, row, width, mask);
    let left = plain_row(data, cols, row, col, mask);
    let cell = seq![TermOp::Print(' ')];
    lemma_rows_in_frame(shown, TermOp::MoveTo(0, 1), all_rows, Seq::empty());
    lemma_plain_rows_prefix_of(data, cols, row + 1, height, width, height, mask);
    lemma_starts(above + line, row_break(row, height));
    lemma_plain_row_prefix(data, cols, row, col + 1, width, mask);
    lemma_cell_in_frame(shown, all_rows, through, above, line, left, cell, 0);
}

/// In a coloured frame every cell under the mask is a blank in the default
/// colours, whatever the buffer holds.
pub proof fn lemma_colored_frame_blank_under_mask(
    data: Seq<u32>,
    cols: int,
    rows: int,
    term_cols: int,
    term_rows: int,
    mask: Option<Mask>,
    row: int,
    col: int,
)
    requires
        0 <= row < frame_height(rows, term_rows),
        0 <= col < frame_width(cols, term_cols),
        in_mask(col, row + 1, mask),
    ensures
        ({
            let shown = colored_frame(data, cols, rows, term_cols, term_rows, mask);
            let at = colored_cell_start(data, cols, rows, term_cols, term_rows, mask, row, col);
            &&& 0 <= at
            &&& at + 1 < shown.len()
            &&& shown[at] == TermOp::ResetColor
            &&& shown[at + 1] == TermOp::Print(' ')
        }),
{
    let height = frame_height(rows, term_rows);
    let width = frame_width(cols, term_cols);
    let shown = colored_frame(data, cols, rows, term_cols, term_rows, mask);
    let all_rows = colored_rows(data, cols, height, width, height, mask);
    let entered = colored_rows_last(data, cols, row, width, mask);
    let above = colored_rows(data, cols, row, width, height, mask);
    let through = colored_rows(data, cols, row + 1, width, height, mask);
    let line = colored_row(data, cols, row, width, mask, entered);
    let left = colored_row(data, cols, row, col, mask, entered);
    let cell = seq![TermOp::ResetColor, TermOp::Print(' ')];
    lemma_rows_in_frame(shown, TermOp::MoveTo(0, 1), all_rows, seq![TermOp::ResetColor]);
    lemma_colored_rows_prefix_of(data, cols, row + 1, height, width, height, mask);
    lemma_starts(above + line, row_break(row, height));
    lemma_colored_row_prefix(data, cols, row, col + 1, width, mask, entered);
    lemma_cell_in_frame(shown, all_rows, through, above, line, left, cell, 0);
    lemma_cell_in_frame(shown, all_rows, through, above, line, left, cell, 1);
}

/// In a half-block frame every terminal cell under the mask is a blank in
/// the default colours, whatever the buffer holds.
pub proof fn lemma_half_frame_blank_under_mask(
    data: Seq<u32>,
    cols: int,
    rows: int,
    term_cols: int,
    term_rows: int,
    mask: Option<Mask>,
    term_row: int,
    col: int,
)
    requires
        0 <= term_row < half_frame_height(rows, term_rows),
        0 <= col < frame_width(cols, term_cols),
        in_mask(col, term_row + 1, mask),
    ensures
        ({
            let shown = half_frame(data, cols, rows, term_cols, term_rows, mask);
            let at = half_cell_start(data, cols, rows, term_cols, term_rows, mask, term_row, col);
            &&& 0 <= at
            &&& at + 1 < shown.len()
            &&& shown[at] == TermOp::ResetColor
            &&& shown[at + 1] == TermOp::Print(' ')
        }),
{
    let height = half_frame_height(rows, term_rows);
    let width = frame_width(cols, term_cols);
    let shown = half_frame(data, cols, rows, term_cols, term_rows, mask);
    let all_rows = half_rows(data, cols, rows, height, width, height, mask);
    let above = half_rows(data, cols, rows, term_row, width, height, mask);
    let through = half_rows(data, cols, rows, term_row + 1, width, height, mask);
    let line = half_row(data, cols, rows, term_row, width, mask);
    let left = half_row(data, cols, rows, term_row, col, mask);
    let cell = seq![TermOp::ResetColor, TermOp::Print(' ')];
    lemma_rows_in_frame(shown, TermOp::MoveTo(0, 1), all_rows, seq![TermOp::ResetColor]);
    lemma_half_rows_prefix_of(data, cols, rows, term_row + 1, height, width, height, mask);
    lemma_starts(above + line, seq![TermOp::ResetColor] + row_break(term_row, height));
    assert(through == above + line + (seq![TermOp::ResetColor] + row_break(term_row, height)));
    lemma_half_row_prefix(data, cols, rows, term_row, col + 1, width, mask);
    lemma_cell_in_frame(shown, all_rows, through, above, line, left, cell, 0);
    lemma_cell_in_frame(shown, all_rows, through, above, line, left, cell, 1);
}

/// The colour in force when a coloured frame of the given width reaches the
/// cell at `row` and `col`.
pub open spec fn colored_last_before(
    data: Seq<u32>,
    cols: int,
    row: int,
    col: int,
    width: int,
    mask: Option<Mask>,
) -> Option<Rgb> {
    colored_row_last(data, cols, row, col, mask, colored_rows_last(data, cols, row, width, mask))
}

/// The cell that a frame of the given width reaches after the cell at `row`
/// and `col`: the next on the row, or the first of the next row.
pub open spec fn next_in_scan(row: int, col: int, width: int) -> (int, int) {
    if col + 1 < width {
        (row, col + 1)
    } else {
        (row + 1, 0)
    }
}

/// Right after a masked cell no colour is in force, on the same row and
/// across the end of a row alike. So where the cell that follows is not
/// masked and exists, its colour is set anew before its glyph, even if it is
/// the colour that was in force before the mask.
pub proof fn lemma_color_set_again_after_mask(
    data: Seq<u32>,
    cols: int,
    row: int,
    col: int,
    width: int,
    mask: Option<Mask>,
)
    requires
        0 <= row,
        0 <= col < width,
        in_mask(col, row + 1, mask),
    ensures
        ({
            let (next_row, next_col) = next_in_scan(row, col, width);
            let before = colored_last_before(data, cols, next_row, next_col, width, mask);
            &&& before is None
            &&& !in_mask(next_col, next_row + 1, mask) ==> (cell_at(
                data,
                cols,
                next_row,
                next_col,
            ) matches Some(packed) ==> colored_cell(Some(packed), false, before) == seq![
                TermOp::SetForeground(cell_rgb(packed)),
                TermOp::Print(glyph_char(cell_glyph(packed))),
            ])
        }),
{
    let entered = colored_rows_last(data, cols, row, width, mask);
    assert(colored_row_last(data, cols, row, col + 1, mask, entered) is None);
    if col + 1 >= width {
        assert(col + 1 == width);
        assert(colored_rows_last(data, cols, row + 1, width, mask) == colored_row_last(
            data,
            cols,
            row,
            width,
            mask,
            entered,
        ));
    }
}

} // verus!
