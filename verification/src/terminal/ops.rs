//! What a frame asks of the terminal, one step at a time.

use vstd::prelude::*;

verus! {

/// A 24-bit colour.
#[derive(Clone, Copy, Debug, PartialEq, Eq, Structural)]
pub struct Rgb {
    pub r: u8,
    pub g: u8,
    pub b: u8,
}

/// One step of terminal output. A frame is a sequence of these, carried out
/// in order by whoever owns the terminal.
#[derive(Clone, Copy, Debug, PartialEq, Eq, Structural)]
pub enum TermOp {
    /// Put the cursor at a column and a row, both counted from zero.
    MoveTo(u16, u16),
    /// Write one character at the cursor.
    Print(char),
    /// Write a carriage return and a line feed.
    LineBreak,
    /// Use this colour as the foreground from here on.
    SetForeground(Rgb),
    /// Use this colour as the background from here on.
    SetBackground(Rgb),
    /// Go back to the terminal's default colours.
    ResetColor,
}

/// A rectangle of terminal cells that a frame leaves blank: its first column,
/// its first row, its width and its height, in terminal coordinates.
pub type Mask = (u16, u16, u16, u16);

/// Whether a terminal position lies inside the mask, if there is one.
pub open spec fn in_mask(col: int, row: int, mask: Option<Mask>) -> bool {
    match mask {
        Some((mask_col, mask_row, mask_w, mask_h)) => {
            &&& mask_col <= col < mask_col + mask_w
            &&& mask_row <= row < mask_row + mask_h
        },
        None => false,
    }
}

/// The characters of a text as print steps, in order.
pub open spec fn print_ops(text: Seq<char>) -> Seq<TermOp>
    decreases text.len(),
{
    if text.len() == 0 {
        Seq::empty()
    } else {
        print_ops(text.drop_last()).push(TermOp::Print(text.last()))
    }
}

/// Printing a text with one more character at its end is printing the
/// text and then that character, whatever came before.
pub proof fn lemma_print_ops_push(before: Seq<TermOp>, text: Seq<char>, c: char)
    ensures
        before + print_ops(text.push(c)) == (before + print_ops(text)).push(TermOp::Print(c)),
{
    assert(text.push(c).drop_last() =~= text);
    assert(before + print_ops(text).push(TermOp::Print(c)) =~= (before + print_ops(text)).push(
        TermOp::Print(c),
    ));
}

} // verus!
