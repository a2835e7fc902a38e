//! How large the glyph grid and the rendered image are for a terminal.

use crate::terminal::frame::{content_rows, frame_height, frame_width, half_frame_height};
use crate::terminal::output::RenderMode;
use vstd::prelude::*;

verus! {

/// The width in pixels of the tile behind one cell.
pub const TILE_WIDTH: u32 = 8;

/// The height in pixels of the tile behind one cell where a terminal cell
/// shows one buffer row: a terminal cell is twice as high as wide.
pub const TILE_HEIGHT: u32 = 16;

/// The height in pixels of the tile behind one cell in half-block mode,
/// where a terminal cell shows two buffer rows and tiles are square.
pub const HALF_TILE_HEIGHT: u32 = 8;

/// The glyph grid and the tile for a content area of `term_cols` by
/// `term_rows` terminal cells: the grid's columns, its rows, and the tile's
/// width and height in pixels.
pub open spec fn pipeline_dims(term_cols: u16, term_rows: u16, mode: RenderMode) -> (
    u32,
    u32,
    u32,
    u32,
) {
    match mode {
        RenderMode::HalfBlock => (
            term_cols as u32,
            (term_rows * 2) as u32,
            TILE_WIDTH,
            HALF_TILE_HEIGHT,
        ),
        _ => (term_cols as u32, term_rows as u32, TILE_WIDTH, TILE_HEIGHT),
    }
}

/// The size in pixels of the image to render for a grid and a tile.
pub open spec fn render_dims(dims: (u32, u32, u32, u32)) -> (int, int) {
    (dims.0 * dims.2, dims.1 * dims.3)
}

/// The glyph grid and the tile for a content area: one cell for each
/// terminal cell, and two rows of cells for each terminal row in half-block
/// mode.
pub fn get_pipeline_dims(term_cols: u16, term_rows: u16, mode: RenderMode) -> (dims: (
    u32,
    u32,
    u32,
    u32,
))
    ensures
        dims == pipeline_dims(term_cols, term_rows, mode),
{
    match mode {
        RenderMode::PlainAscii | RenderMode::ColoredAscii => {
            (term_cols as u32, term_rows as u32, TILE_WIDTH, TILE_HEIGHT)
        },
        RenderMode::HalfBlock => {
            (term_cols as u32, term_rows as u32 * 2, TILE_WIDTH, HALF_TILE_HEIGHT)
        },
    }
}

/// The size in pixels of the image to render for a content area.
pub fn get_render_size(term_cols: u16, term_rows: u16, mode: RenderMode) -> (size: (u32, u32))
    ensures
        size.0 == render_dims(pipeline_dims(term_cols, term_rows, mode)).0,
        size.1 == render_dims(pipeline_dims(term_cols, term_rows, mode)).1,
{
    let (cols, rows, tile_width, tile_height) = get_pipeline_dims(term_cols, term_rows, mode);
    (cols * tile_width, rows * tile_height)
}

/// In every mode the rendered image is eight pixels wide and sixteen pixels
/// high for each terminal cell of the content area.
pub proof fn lemma_render_size_by_terminal(term_cols: u16, term_rows: u16, mode: RenderMode)
    ensures
        render_dims(pipeline_dims(term_cols, term_rows, mode)).0 == term_cols * TILE_WIDTH,
        render_dims(pipeline_dims(term_cols, term_rows, mode)).1 == term_rows * TILE_HEIGHT,
{
}

/// A grid made for a terminal's content area fills that area exactly: the
/// frame drawn from it is as wide as the terminal and as high as the rows
/// left under the status line, in every mode.
pub proof fn lemma_grid_fills_content(term_cols: u16, term_rows: u16, mode: RenderMode)
    ensures
        ({
            let dims = pipeline_dims(term_cols, content_rows(term_rows as int) as u16, mode);
            let shown_rows = match mode {
                RenderMode::HalfBlock => half_frame_height(dims.1 as int, term_rows as int),
                _ => frame_height(dims.1 as int, term_rows as int),
            };
            &&& frame_width(dims.0 as int, term_cols as int) == term_cols
            &&& shown_rows == content_rows(term_rows as int)
        }),
{
}

} // verus!
