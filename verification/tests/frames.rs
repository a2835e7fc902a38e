use ascii_render::terminal::ops::{Rgb, TermOp};
use ascii_render::terminal::output::{RenderMode, TerminalRenderer};

fn cell(r: u8, g: u8, b: u8, glyph: u8) -> u32 {
    ((r as u32) << 24) | ((g as u32) << 16) | ((b as u32) << 8) | glyph as u32
}

fn rgb(r: u8, g: u8, b: u8) -> Rgb {
    Rgb { r, g, b }
}

const HALF: char = '\u{2580}';

#[test]
fn render_mode_names() {
    assert_eq!(RenderMode::PlainAscii.name(), "Plain ASCII");
    assert_eq!(RenderMode::ColoredAscii.name(), "Colored ASCII");
    assert_eq!(RenderMode::HalfBlock.name(), "Half Block");
}

#[test]
fn render_mode_cycle_comes_round_after_three_steps() {
    assert_eq!(RenderMode::PlainAscii.next(), RenderMode::ColoredAscii);
    assert_eq!(RenderMode::ColoredAscii.next(), RenderMode::HalfBlock);
    assert_eq!(RenderMode::HalfBlock.next(), RenderMode::PlainAscii);
    for mode in [RenderMode::PlainAscii, RenderMode::ColoredAscii, RenderMode::HalfBlock] {
        assert_eq!(mode.next().next().next(), mode);
        assert_ne!(mode.next(), mode);
    }
}

#[test]
fn content_size_leaves_out_the_status_row() {
    assert_eq!(TerminalRenderer::new(80, 24).content_size(), (80, 23));
    assert_eq!(TerminalRenderer::new(80, 1).content_size(), (80, 0));
    assert_eq!(TerminalRenderer::new(0, 0).content_size(), (0, 0));
    assert_eq!(TerminalRenderer::new(65535, 65535).content_size(), (65535, 65534));
}

#[test]
fn check_resize_reports_a_change_once() {
    let mut term = TerminalRenderer::new(80, 24);
    assert!(!term.check_resize(80, 24));
    assert!(term.check_resize(100, 24));
    assert_eq!(term.content_size(), (100, 23));
    assert!(!term.check_resize(100, 24));
    assert!(term.check_resize(100, 30));
    assert_eq!(term.content_size(), (100, 29));
}

#[test]
fn is_masked_covers_the_rectangle_and_nothing_else() {
    let term = TerminalRenderer::new(80, 24);
    let mask = Some((10, 5, 3, 2));
    assert!(term.is_masked(10, 5, mask));
    assert!(term.is_masked(12, 6, mask));
    assert!(!term.is_masked(13, 5, mask));
    assert!(!term.is_masked(10, 7, mask));
    assert!(!term.is_masked(9, 5, mask));
    assert!(!term.is_masked(10, 4, mask));
    assert!(!term.is_masked(10, 5, None));
}

#[test]
fn is_masked_does_not_wrap_at_the_edge_of_the_coordinates() {
    let term = TerminalRenderer::new(80, 24);
    let mask = Some((65530, 65530, 10, 10));
    assert!(term.is_masked(65535, 65535, mask));
    assert!(!term.is_masked(0, 0, mask));
    assert!(!term.is_masked(3, 3, mask));
}

#[test]
fn plain_frame_prints_one_glyph_for_each_cell() {
    let term = TerminalRenderer::new(80, 24);
    let data = [cell(1, 2, 3, 1), cell(4, 5, 6, 5), cell(7, 8, 9, 10), cell(0, 0, 0, 14)];
    let ops = term.render(&data, 2, 2, RenderMode::PlainAscii, None);
    assert_eq!(
        ops,
        vec![
            TermOp::MoveTo(0, 1),
            TermOp::Print('.'),
            TermOp::Print('P'),
            TermOp::LineBreak,
            TermOp::Print('|'),
            TermOp::Print(' '),
        ]
    );
    assert_eq!(ops, term.render_plain_ascii(&data, 2, 2, None));
}

#[test]
fn plain_frame_of_an_empty_grid_only_moves_the_cursor() {
    let term = TerminalRenderer::new(80, 24);
    assert_eq!(term.render_plain_ascii(&[], 0, 0, None), vec![TermOp::MoveTo(0, 1)]);
    assert_eq!(
        term.render_plain_ascii(&[], 0, 2, None),
        vec![TermOp::MoveTo(0, 1), TermOp::LineBreak]
    );
}

#[test]
fn frame_is_clipped_to_the_content_area() {
    let term = TerminalRenderer::new(2, 2);
    let data: Vec<u32> = (0..9).map(|i| cell(0, 0, 0, i as u8 + 1)).collect();
    let ops = term.render_plain_ascii(&data, 3, 3, None);
    assert_eq!(ops, vec![TermOp::MoveTo(0, 1), TermOp::Print('.'), TermOp::Print(';')]);
}

#[test]
fn frame_on_a_terminal_without_content_rows_shows_nothing() {
    let data = [cell(9, 9, 9, 9); 4];
    for rows in [0u16, 1] {
        let term = TerminalRenderer::new(80, rows);
        assert_eq!(term.render_plain_ascii(&data, 2, 2, None), vec![TermOp::MoveTo(0, 1)]);
        assert_eq!(
            term.render_colored_ascii(&data, 2, 2, None),
            vec![TermOp::MoveTo(0, 1), TermOp::ResetColor]
        );
        assert_eq!(
            term.render_half_block(&data, 2, 2, None),
            vec![TermOp::MoveTo(0, 1), TermOp::ResetColor]
        );
    }
}

#[test]
fn cells_past_the_end_of_the_buffer_are_skipped() {
    let term = TerminalRenderer::new(80, 24);
    let data = [cell(0, 0, 0, 9), cell(0, 0, 0, 8), cell(0, 0, 0, 7)];
    let ops = term.render_plain_ascii(&data, 2, 3, None);
    assert_eq!(
        ops,
        vec![
            TermOp::MoveTo(0, 1),
            TermOp::Print('#'),
            TermOp::Print('@'),
            TermOp::LineBreak,
            TermOp::Print('?'),
            TermOp::LineBreak,
        ]
    );
}

#[test]
fn no_mode_reads_outside_a_buffer_of_any_length() {
    let term = TerminalRenderer::new(40, 12);
    let modes = [RenderMode::PlainAscii, RenderMode::ColoredAscii, RenderMode::HalfBlock];
    for len in 0..40usize {
        let data = vec![cell(10, 20, 30, 3); len];
        for cols in [0u32, 1, 3, 7, 50, u32::MAX] {
            for rows in [0u32, 1, 2, 5, 9, u32::MAX] {
                for mode in modes {
                    let ops = term.render(&data, cols, rows, mode, Some((1, 1, 2, 2)));
                    assert_eq!(ops[0], TermOp::MoveTo(0, 1));
                }
            }
        }
    }
}

#[test]
fn full_buffer_gives_every_cell_in_plain_mode() {
    let term = TerminalRenderer::new(80, 24);
    let (cols, rows) = (7u32, 5u32);
    let data = vec![cell(0, 0, 0, 4); (cols * rows) as usize];
    let ops = term.render_plain_ascii(&data, cols, rows, None);
    let printed = ops.iter().filter(|op| **op == TermOp::Print('o')).count();
    let breaks = ops.iter().filter(|op| **op == TermOp::LineBreak).count();
    assert_eq!(printed, 35);
    assert_eq!(breaks, 4);
    assert_eq!(ops.len(), 1 + 35 + 4);
}

#[test]
fn colored_frame_sets_a_color_only_where_it_changes() {
    let term = TerminalRenderer::new(80, 24);
    let data = [cell(1, 2, 3, 1), cell(1, 2, 3, 2), cell(9, 9, 9, 3)];
    let ops = term.render(&data, 3, 1, RenderMode::ColoredAscii, None);
    assert_eq!(
        ops,
        vec![
            TermOp::MoveTo(0, 1),
            TermOp::SetForeground(rgb(1, 2, 3)),
            TermOp::Print('.'),
            TermOp::Print(';'),
            TermOp::SetForeground(rgb(9, 9, 9)),
            TermOp::Print('c'),
            TermOp::ResetColor,
        ]
    );
}

#[test]
fn colored_frame_carries_the_color_over_a_line_break() {
    let term = TerminalRenderer::new(80, 24);
    let data = [cell(5, 5, 5, 1), cell(5, 5, 5, 1)];
    let ops = term.render_colored_ascii(&data, 1, 2, None);
    assert_eq!(
        ops,
        vec![
            TermOp::MoveTo(0, 1),
            TermOp::SetForeground(rgb(5, 5, 5)),
            TermOp::Print('.'),
            TermOp::LineBreak,
            TermOp::Print('.'),
            TermOp::ResetColor,
        ]
    );
}

#[test]
fn colored_frame_sets_black_on_the_first_cell() {
    let term = TerminalRenderer::new(80, 24);
    let ops = term.render_colored_ascii(&[cell(0, 0, 0, 1)], 1, 1, None);
    assert_eq!(
        ops,
        vec![
            TermOp::MoveTo(0, 1),
            TermOp::SetForeground(rgb(0, 0, 0)),
            TermOp::Print('.'),
            TermOp::ResetColor,
        ]
    );
}

#[test]
fn masked_cell_is_blank_and_the_color_is_set_again_after_it() {
    let term = TerminalRenderer::new(80, 24);
    let data = [cell(1, 2, 3, 1), cell(1, 2, 3, 2), cell(1, 2, 3, 3)];
    let ops = term.render_colored_ascii(&data, 3, 1, Some((1, 1, 1, 1)));
    assert_eq!(
        ops,
        vec![
            TermOp::MoveTo(0, 1),
            TermOp::SetForeground(rgb(1, 2, 3)),
            TermOp::Print('.'),
            TermOp::ResetColor,
            TermOp::Print(' '),
            TermOp::SetForeground(rgb(1, 2, 3)),
            TermOp::Print('c'),
            TermOp::ResetColor,
        ]
    );
}

#[test]
fn mask_at_the_end_of_a_row_resets_the_color_for_the_next_row() {
    let term = TerminalRenderer::new(80, 24);
    let data = [cell(7, 7, 7, 1); 4];
    let ops = term.render_colored_ascii(&data, 2, 2, Some((1, 1, 1, 1)));
    assert_eq!(
        ops,
        vec![
            TermOp::MoveTo(0, 1),
            TermOp::SetForeground(rgb(7, 7, 7)),
            TermOp::Print('.'),
            TermOp::ResetColor,
            TermOp::Print(' '),
            TermOp::LineBreak,
            TermOp::SetForeground(rgb(7, 7, 7)),
            TermOp::Print('.'),
            TermOp::Print('.'),
            TermOp::ResetColor,
        ]
    );
}

#[test]
fn mask_is_given_in_terminal_rows_one_below_the_buffer_row() {
    let term = TerminalRenderer::new(80, 24);
    let data = [cell(0, 0, 0, 9); 4];
    let ops = term.render_plain_ascii(&data, 2, 2, Some((0, 2, 1, 1)));
    assert_eq!(
        ops,
        vec![
            TermOp::MoveTo(0, 1),
            TermOp::Print('#'),
            TermOp::Print('#'),
            TermOp::LineBreak,
            TermOp::Print(' '),
            TermOp::Print('#'),
        ]
    );
}

#[test]
fn mask_blanks_cells_in_every_mode_whatever_the_buffer_holds() {
    let term = TerminalRenderer::new(80, 24);
    let data = [cell(200, 100, 50, 9); 16];
    let whole = Some((0, 1, 4, 4));
    let plain = term.render(&data, 4, 4, RenderMode::PlainAscii, whole);
    assert_eq!(plain.iter().filter(|op| **op == TermOp::Print(' ')).count(), 16);
    assert!(!plain.contains(&TermOp::Print('#')));
    let colored = term.render(&data, 4, 4, RenderMode::ColoredAscii, whole);
    assert_eq!(colored.iter().filter(|op| **op == TermOp::Print(' ')).count(), 16);
    assert!(colored.iter().all(|op| !matches!(op, TermOp::SetForeground(_))));
    let half = term.render(&data, 4, 4, RenderMode::HalfBlock, whole);
    assert_eq!(half.iter().filter(|op| **op == TermOp::Print(' ')).count(), 8);
    assert!(half.iter().all(|op| !matches!(op, TermOp::SetForeground(_) | TermOp::SetBackground(_))));
    assert!(!half.contains(&TermOp::Print(HALF)));
}

#[test]
fn mask_also_blanks_cells_that_the_buffer_lacks() {
    let term = TerminalRenderer::new(80, 24);
    let ops = term.render_plain_ascii(&[], 2, 1, Some((0, 1, 1, 1)));
    assert_eq!(ops, vec![TermOp::MoveTo(0, 1), TermOp::Print(' ')]);
}

#[test]
fn half_block_pairs_two_buffer_rows_in_one_terminal_row() {
    let term = TerminalRenderer::new(80, 24);
    let data = [cell(1, 2, 3, 0), cell(4, 5, 6, 0), cell(7, 8, 9, 0), cell(10, 11, 12, 0)];
    let ops = term.render(&data, 2, 2, RenderMode::HalfBlock, None);
    assert_eq!(
        ops,
        vec![
            TermOp::MoveTo(0, 1),
            TermOp::SetForeground(rgb(1, 2, 3)),
            TermOp::SetBackground(rgb(7, 8, 9)),
            TermOp::Print(HALF),
            TermOp::SetForeground(rgb(4, 5, 6)),
            TermOp::SetBackground(rgb(10, 11, 12)),
            TermOp::Print(HALF),
            TermOp::ResetColor,
            TermOp::ResetColor,
        ]
    );
}

#[test]
fn half_block_rows_past_the_buffer_are_black() {
    let term = TerminalRenderer::new(80, 24);
    let data = [cell(1, 2, 3, 0)];
    let ops = term.render_half_block(&data, 1, 4, None);
    assert_eq!(
        ops,
        vec![
            TermOp::MoveTo(0, 1),
            TermOp::SetForeground(rgb(1, 2, 3)),
            TermOp::SetBackground(rgb(0, 0, 0)),
            TermOp::Print(HALF),
            TermOp::ResetColor,
            TermOp::LineBreak,
            TermOp::SetForeground(rgb(0, 0, 0)),
            TermOp::SetBackground(rgb(0, 0, 0)),
            TermOp::Print(HALF),
            TermOp::ResetColor,
            TermOp::ResetColor,
        ]
    );
}

#[test]
fn half_block_drops_an_odd_last_row() {
    let term = TerminalRenderer::new(80, 24);
    let data = [cell(1, 1, 1, 0), cell(2, 2, 2, 0), cell(3, 3, 3, 0)];
    let ops = term.render_half_block(&data, 1, 3, None);
    assert_eq!(
        ops,
        vec![
            TermOp::MoveTo(0, 1),
            TermOp::SetForeground(rgb(1, 1, 1)),
            TermOp::SetBackground(rgb(2, 2, 2)),
            TermOp::Print(HALF),
            TermOp::ResetColor,
            TermOp::ResetColor,
        ]
    );
    assert_eq!(
        term.render_half_block(&data, 1, 1, None),
        vec![TermOp::MoveTo(0, 1), TermOp::ResetColor]
    );
}

#[test]
fn half_block_of_forty_rows_takes_twenty_terminal_rows() {
    let term = TerminalRenderer::new(80, 24);
    let cols = 3u32;
    let rows = 40u32;
    let data: Vec<u32> = (0..cols * rows).map(|i| cell((i / cols) as u8, 0, 0, 0)).collect();
    let ops = term.render_half_block(&data, cols, rows, None);
    let blocks = ops.iter().filter(|op| **op == TermOp::Print(HALF)).count();
    let breaks = ops.iter().filter(|op| **op == TermOp::LineBreak).count();
    assert_eq!(blocks, 20 * 3);
    assert_eq!(breaks, 19);
    let mut seen = Vec::new();
    for op in &ops {
        match op {
            TermOp::SetForeground(c) | TermOp::SetBackground(c) => seen.push(c.r),
            _ => {}
        }
    }
    assert_eq!(seen.iter().min(), Some(&0));
    assert_eq!(seen.iter().max(), Some(&39));
    let expected: Vec<u8> = (0..20u8).flat_map(|t| [2 * t, 2 * t + 1].repeat(3)).collect();
    assert_eq!(seen, expected);
}

#[test]
fn half_block_of_forty_rows_is_cut_to_the_rows_the_terminal_has() {
    let term = TerminalRenderer::new(80, 11);
    let data = vec![cell(1, 1, 1, 0); 2 * 40];
    let ops = term.render_half_block(&data, 2, 40, None);
    assert_eq!(ops.iter().filter(|op| **op == TermOp::Print(HALF)).count(), 10 * 2);
    assert_eq!(ops.iter().filter(|op| **op == TermOp::LineBreak).count(), 9);
}

#[test]
fn two_bright_red_cells_show_as_the_brightest_glyph_in_red() {
    let term = TerminalRenderer::new(80, 24);
    let data = [0xFF00_0009u32, 0xFF00_0009];
    assert_eq!(
        term.render(&data, 2, 1, RenderMode::ColoredAscii, None),
        vec![
            TermOp::MoveTo(0, 1),
            TermOp::SetForeground(rgb(255, 0, 0)),
            TermOp::Print('#'),
            TermOp::Print('#'),
            TermOp::ResetColor,
        ]
    );
    assert_eq!(
        term.render(&data, 2, 1, RenderMode::PlainAscii, None),
        vec![TermOp::MoveTo(0, 1), TermOp::Print('#'), TermOp::Print('#')]
    );
}

#[test]
fn render_does_not_depend_on_anything_but_its_arguments() {
    let term = TerminalRenderer::new(30, 10);
    let data: Vec<u32> = (0..60u32).map(|i| i.wrapping_mul(0x0101_0307)).collect();
    for mode in [RenderMode::PlainAscii, RenderMode::ColoredAscii, RenderMode::HalfBlock] {
        let first = term.render(&data, 10, 6, mode, Some((2, 2, 3, 2)));
        let second = term.render(&data, 10, 6, mode, Some((2, 2, 3, 2)));
        assert_eq!(first, second);
    }
}
