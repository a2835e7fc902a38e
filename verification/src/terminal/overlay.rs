//! The status line and the GPU information block.
//!
//! Both are drawn over the frame at fixed places. The block sits in the
//! lower right corner, and the frame leaves a rectangle blank for it. Each
//! line of the block starts at the rectangle's left edge and is as wide as
//! the rectangle: its text stands flush right against the last column, which
//! stays blank. So the block covers the rectangle exactly, as long as no
//! line is too long for it. A line that is too long is not cut: it is left
//! whole and runs past the rectangle's right edge.

use super::frame::least;
use super::ops::{in_mask, lemma_print_ops_push, print_ops, Mask, TermOp};
use super::output::TerminalRenderer;
use super::text::{
    decimal, lemma_decimal_len, lemma_text_within_bytes, push_decimal_aligned,
    push_right_aligned, right_aligned,
};
use vstd::prelude::*;
use vstd::string::StringExecFns;
use vstd::string::StringSliceAdditionalSpecFns;
use vstd::utf8::encode_utf8;

verus! {

/// The number of lines in the GPU information block.
pub const GPU_INFO_LINES: u16 = 4;

/// The widest text that still leaves room for the blank column behind it in
/// terminal coordinates.
pub const GPU_INFO_MAX_WIDTH: u16 = 0xFFFE;

/// The text of the status line for a mode label and a frame rate.
pub open spec fn status_text(mode: Seq<char>, fps: Seq<char>) -> Seq<char> {
    " "@ + mode + " | "@ + fps + " FPS | 1-3: modes | c: config | g: gpu | q: quit "@
}

/// The status line: its text from the terminal's first cell on, in the
/// default colours.
pub open spec fn status_ops(mode: Seq<char>, fps: Seq<char>) -> Seq<TermOp> {
    seq![TermOp::MoveTo(0, 0), TermOp::ResetColor] + print_ops(status_text(mode, fps))
}

/// The width in columns of the text in the GPU information block, for a
/// GPU name of so many bytes: room for the name behind its label, and never
/// less than the other lines need.
pub open spec fn gpu_info_width(name_bytes: nat) -> int {
    if name_bytes + 12 > 30 {
        least(name_bytes as int + 12, GPU_INFO_MAX_WIDTH as int)
    } else {
        30
    }
}

/// `a - b`, or zero where that would be negative.
pub open spec fn minus_or_zero(a: int, b: int) -> int {
    if a >= b {
        a - b
    } else {
        0
    }
}

/// The rectangle that the GPU information block takes on a terminal of the
/// given size: as high as the block has lines, as wide as its text and the
/// blank column behind it, and set against the right edge one row above the
/// bottom.
pub open spec fn gpu_info_region(term_cols: int, term_rows: int, name_bytes: nat) -> Mask {
    let width = gpu_info_width(name_bytes);
    (
        minus_or_zero(term_cols, width + 1) as u16,
        minus_or_zero(term_rows, GPU_INFO_LINES + 1) as u16,
        (width + 1) as u16,
        GPU_INFO_LINES,
    )
}

/// The line that names the GPU.
pub open spec fn gpu_name_line(name: Seq<char>) -> Seq<char> {
    "      GPU: "@ + name
}

/// The line that gives the time the GPU took, the number flush right in six
/// characters.
pub open spec fn gpu_time_line(time: Seq<char>) -> Seq<char> {
    "  GPU Time: "@ + right_aligned(time, 6) + " ms"@
}

/// The line that gives the size of the rendered image in pixels, each
/// number flush right in four characters.
pub open spec fn render_size_line(width: u32, height: u32) -> Seq<char> {
    "   Render: "@ + right_aligned(decimal(width as nat), 4) + " x "@ + right_aligned(
        decimal(height as nat),
        4,
    ) + " px"@
}

/// The line that gives the size of the glyph grid in cells, each number
/// flush right in four characters.
pub open spec fn pipeline_size_line(cols: u32, rows: u32) -> Seq<char> {
    " Pipeline: "@ + right_aligned(decimal(cols as nat), 4) + " x "@ + right_aligned(
        decimal(rows as nat),
        4,
    ) + " cells"@
}

/// What one line of the block shows in a rectangle that is `region_width`
/// columns wide: the text flush right against the last column, and a blank
/// in that column. A text too long for that is left whole, the blank behind
/// it.
pub open spec fn gpu_info_line_text(text: Seq<char>, region_width: nat) -> Seq<char> {
    right_aligned(text, (region_width - 1) as nat).push(' ')
}

/// One line of the block: the cursor goes to the line's first cell, the
/// colours are reset, and the line follows.
pub open spec fn gpu_info_line_ops(col: u16, row: u16, text: Seq<char>, region_width: nat) -> Seq<
    TermOp,
> {
    seq![TermOp::MoveTo(col, row), TermOp::ResetColor] + print_ops(
        gpu_info_line_text(text, region_width),
    )
}

/// The whole GPU information block in the rectangle `region`: its four
/// lines on the rectangle's four rows, each from the rectangle's first
/// column on.
pub open spec fn gpu_info_ops(
    region: Mask,
    name: Seq<char>,
    time: Seq<char>,
    render_res: (u32, u32),
    pipeline_res: (u32, u32),
) -> Seq<TermOp> {
    let (col, row, region_width, _) = region;
    let width = region_width as nat;
    gpu_info_line_ops(col, row, gpu_name_line(name), width) + gpu_info_line_ops(
        col,
        (row + 1) as u16,
        gpu_time_line(time),
        width,
    ) + gpu_info_line_ops(
        col,
        (row + 2) as u16,
        render_size_line(render_res.0, render_res.1),
        width,
    ) + gpu_info_line_ops(
        col,
        (row + 3) as u16,
        pipeline_size_line(pipeline_res.0, pipeline_res.1),
        width,
    )
}

/// Adds the characters of a text as print steps.
fn push_text(ops: &mut Vec<TermOp>, text: &str)
    ensures
        final(ops)@ == old(ops)@ + print_ops(text@),
{
    broadcast use vstd::string::axiom_spec_iter;

    let ghost before = ops@;
    for c in it: text.chars()
        invariant
            it.seq() == text@,
            ops@ == before + print_ops(text@.take(it.index())),
    {
        proof {
            assert(text@.take(it.index() + 1) =~= text@.take(it.index()).push(c));
            lemma_print_ops_push(before, text@.take(it.index()), c);
        }
        ops.push(TermOp::Print(c));
    }
    assert(text@.take(text@.len() as int) =~= text@);
}

/// Adds one line of the GPU information block.
fn push_info_line(ops: &mut Vec<TermOp>, col: u16, row: u16, text: &str, region_width: u16)
    requires
        region_width >= 1,
    ensures
        final(ops)@ == old(ops)@ + gpu_info_line_ops(col, row, text@, region_width as nat),
{
    ops.push(TermOp::MoveTo(col, row));
    ops.push(TermOp::ResetColor);
    let mut line = String::new();
    push_right_aligned(&mut line, text, (region_width - 1) as usize);
    line.push(' ');
    push_text(ops, line.as_str());
}

impl TerminalRenderer {
    /// The status line. `fps` is the frame rate as text with one decimal,
    /// `mode` the label of what is shown.
    pub fn render_status(&self, fps: &str, mode: &str) -> (ops: Vec<TermOp>)
        ensures
            ops@ == status_ops(mode@, fps@),
    {
        let mut status = String::new();
        status.push(' ');
        status.append(mode);
        status.append(" | ");
        status.append(fps);
        status.append(" FPS | 1-3: modes | c: config | g: gpu | q: quit ");
        proof {
            reveal_strlit(" ");
            assert(status@ =~= status_text(mode@, fps@));
        }
        let mut ops: Vec<TermOp> = Vec::new();
        ops.push(TermOp::MoveTo(0, 0));
        ops.push(TermOp::ResetColor);
        push_text(&mut ops, status.as_str());
        ops
    }

    /// The rectangle that the GPU information block takes, which a frame
    /// drawn under it has to leave blank.
    pub fn gpu_info_mask(&self, gpu_name: &str) -> (mask: Mask)
        ensures
            mask == gpu_info_region(
                self.cols() as int,
                self.rows() as int,
                gpu_name.spec_bytes().len(),
            ),
    {
        let (cols, content) = self.content_size();
        let name_len = gpu_name.as_bytes().len();
        let width: u16 = if name_len <= 18 {
            30
        } else if name_len >= (GPU_INFO_MAX_WIDTH - 12) as usize {
            GPU_INFO_MAX_WIDTH
        } else {
            (name_len + 12) as u16
        };
        let start_row = if content >= GPU_INFO_LINES { content - GPU_INFO_LINES } else { 0 };
        let start_col = if cols >= width + 1 { cols - (width + 1) } else { 0 };
        (start_col, start_row, width + 1, GPU_INFO_LINES)
    }

    /// The GPU information block: the GPU's name, the time it took, and the
    /// sizes of the rendered image and of the glyph grid. `gpu_time` is the
    /// time in milliseconds as text with two decimals. The block is laid out
    /// in the rectangle that `gpu_info_mask` gives for the same name: every
    /// line starts at its left edge and is as wide as the rectangle, unless
    /// its text is too long, in which case it is written whole.
    pub fn render_gpu_info(
        &self,
        gpu_name: &str,
        gpu_time: &str,
        render_res: (u32, u32),
        pipeline_res: (u32, u32),
    ) -> (ops: Vec<TermOp>)
        ensures
            ops@ == gpu_info_ops(
                gpu_info_region(
                    self.cols() as int,
                    self.rows() as int,
                    gpu_name.spec_bytes().len(),
                ),
                gpu_name@,
                gpu_time@,
                render_res,
                pipeline_res,
            ),
    {
        let (col, row, width, _) = self.gpu_info_mask(gpu_name);

        let mut name_line = String::new();
        name_line.append("      GPU: ");
        name_line.append(gpu_name);

        let mut time_line = String::new();
        time_line.append("  GPU Time: ");
        push_right_aligned(&mut time_line, gpu_time, 6);
        time_line.append(" ms");

        let mut render_line = String::new();
        render_line.append("   Render: ");
        push_decimal_aligned(&mut render_line, render_res.0, 4);
        render_line.append(" x ");
        push_decimal_aligned(&mut render_line, render_res.1, 4);
        render_line.append(" px");

        let mut pipeline_line = String::new();
        pipeline_line.append(" Pipeline: ");
        push_decimal_aligned(&mut pipeline_line, pipeline_res.0, 4);
        pipeline_line.append(" x ");
        push_decimal_aligned(&mut pipeline_line, pipeline_res.1, 4);
        pipeline_line.append(" cells");

        let mut ops: Vec<TermOp> = Vec::new();
        push_info_line(&mut ops, col, row, name_line.as_str(), width);
        push_info_line(&mut ops, col, row + 1, time_line.as_str(), width);
        push_info_line(&mut ops, col, row + 2, render_line.as_str(), width);
        push_info_line(&mut ops, col, row + 3, pipeline_line.as_str(), width);
        ops
    }
}

/// Every column of every row of the rectangle, counted from its corner,
/// lies in the rectangle that the frame leaves blank.
pub proof fn lemma_gpu_info_inside_mask(
    term_cols: u16,
    term_rows: u16,
    name_bytes: nat,
    line: int,
    offset: int,
)
    requires
        0 <= line < GPU_INFO_LINES,
        0 <= offset < gpu_info_region(term_cols as int, term_rows as int, name_bytes).2,
    ensures
        ({
            let region = gpu_info_region(term_cols as int, term_rows as int, name_bytes);
            in_mask(region.0 + offset, region.1 + line, Some(region))
        }),
{
}

/// A line whose text leaves the last column free is exactly as wide as the
/// rectangle. A line whose text does not is the text and a blank, and so
/// runs past the rectangle.
pub proof fn lemma_gpu_info_line_width(text: Seq<char>, region_width: nat)
    requires
        region_width >= 1,
    ensures
        text.len() < region_width ==> gpu_info_line_text(text, region_width).len() == region_width,
        text.len() >= region_width ==> gpu_info_line_text(text, region_width) == text.push(' '),
{
}

/// Whether the four lines fit the block whatever the terminal: the name's
/// line is not capped, the time has at most six characters, as every time
/// below a thousand milliseconds has, and every size is below ten thousand.
pub open spec fn gpu_info_fits(
    name: Seq<char>,
    time: Seq<char>,
    render_res: (u32, u32),
    pipeline_res: (u32, u32),
) -> bool {
    &&& encode_utf8(name).len() + 12 <= GPU_INFO_MAX_WIDTH
    &&& time.len() <= 6
    &&& render_res.0 < 10000
    &&& render_res.1 < 10000
    &&& pipeline_res.0 < 10000
    &&& pipeline_res.1 < 10000
}

/// Where the lines fit, the block covers exactly the rectangle that
/// `gpu_info_mask` reports for the same name: each of its four lines starts
/// at the rectangle's first column, on one of the rectangle's four rows, and
/// is as wide as the rectangle.
pub proof fn lemma_gpu_info_block_is_mask(
    term_cols: u16,
    term_rows: u16,
    name: Seq<char>,
    time: Seq<char>,
    render_res: (u32, u32),
    pipeline_res: (u32, u32),
)
    requires
        gpu_info_fits(name, time, render_res, pipeline_res),
    ensures
        ({
            let region = gpu_info_region(
                term_cols as int,
                term_rows as int,
                encode_utf8(name).len(),
            );
            let width = region.2 as nat;
            &&& region.3 == GPU_INFO_LINES
            &&& gpu_info_line_text(gpu_name_line(name), width).len() == width
            &&& gpu_info_line_text(gpu_time_line(time), width).len() == width
            &&& gpu_info_line_text(render_size_line(render_res.0, render_res.1), width).len()
                == width
            &&& gpu_info_line_text(pipeline_size_line(pipeline_res.0, pipeline_res.1), width).len()
                == width
        }),
{
    reveal_strlit("      GPU: ");
    reveal_strlit("  GPU Time: ");
    reveal_strlit(" ms");
    reveal_strlit("   Render: ");
    reveal_strlit(" Pipeline: ");
    reveal_strlit(" x ");
    reveal_strlit(" px");
    reveal_strlit(" cells");
    lemma_text_within_bytes(name);
    lemma_decimal_len(render_res.0 as nat);
    lemma_decimal_len(render_res.1 as nat);
    lemma_decimal_len(pipeline_res.0 as nat);
    lemma_decimal_len(pipeline_res.1 as nat);
    assert(gpu_name_line(name).len() == 11 + name.len());
    assert(gpu_time_line(time).len() == 21);
    assert(render_size_line(render_res.0, render_res.1).len() == 25);
    assert(pipeline_size_line(pipeline_res.0, pipeline_res.1).len() == 28);
}

} // verus!
