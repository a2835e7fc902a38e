use ascii_render::terminal::output::{RenderMode, TerminalRenderer};
use ascii_render::terminal::text::{push_decimal, push_decimal_aligned, push_right_aligned, push_spaces};

fn cell(r: u8, g: u8, b: u8, glyph: u8) -> u32 {
    ((r as u32) << 24) | ((g as u32) << 16) | ((b as u32) << 8) | glyph as u32
}

#[test]
fn decimal_has_no_leading_zeros() {
    for (n, text) in [
        (0u32, "0"),
        (7, "7"),
        (9, "9"),
        (10, "10"),
        (99, "99"),
        (100, "100"),
        (255, "255"),
        (1000, "1000"),
        (4_294_967_295, "4294967295"),
    ] {
        let mut out = String::from("x");
        push_decimal(&mut out, n);
        assert_eq!(out, format!("x{}", text));
    }
}

#[test]
fn decimal_agrees_with_the_standard_formatting() {
    for n in (0..70_000u32).chain([u32::MAX - 1, u32::MAX, 1_000_000, 999_999]) {
        let mut out = String::new();
        push_decimal(&mut out, n);
        assert_eq!(out, format!("{}", n));
    }
}

#[test]
fn spaces_are_added_at_the_end() {
    let mut out = String::from("ab");
    push_spaces(&mut out, 3);
    assert_eq!(out, "ab   ");
    push_spaces(&mut out, 0);
    assert_eq!(out, "ab   ");
}

#[test]
fn right_aligned_text_is_padded_on_the_left() {
    let mut out = String::from("[");
    push_right_aligned(&mut out, "ab", 5);
    assert_eq!(out, "[   ab");
    let mut out = String::new();
    push_right_aligned(&mut out, "abcdef", 4);
    assert_eq!(out, "abcdef");
    let mut out = String::new();
    push_right_aligned(&mut out, "abcd", 4);
    assert_eq!(out, "abcd");
    let mut out = String::new();
    push_right_aligned(&mut out, "", 2);
    assert_eq!(out, "  ");
}

#[test]
fn right_aligned_text_counts_characters_not_bytes() {
    let mut out = String::new();
    push_right_aligned(&mut out, "\u{e9}\u{e9}", 4);
    assert_eq!(out, "  \u{e9}\u{e9}");
}

#[test]
fn right_aligned_numbers_match_the_standard_formatting() {
    for n in [0u32, 5, 42, 640, 1920, 12345, u32::MAX] {
        let mut out = String::new();
        push_decimal_aligned(&mut out, n, 4);
        assert_eq!(out, format!("{:>4}", n));
    }
}

#[test]
fn plain_text_has_one_line_for_each_row() {
    let term = TerminalRenderer::new(80, 24);
    let data = [cell(1, 2, 3, 1), cell(4, 5, 6, 5), cell(7, 8, 9, 10), cell(0, 0, 0, 14)];
    let text = term.frame_to_ansi_string(&data, 2, 2, RenderMode::PlainAscii);
    assert_eq!(text, ".P\n| \n");
    assert_eq!(text, term.frame_to_plain_string(&data, 2, 2));
}

#[test]
fn plain_text_skips_cells_past_the_end_of_the_buffer() {
    let term = TerminalRenderer::new(80, 24);
    let data = [cell(0, 0, 0, 9), cell(0, 0, 0, 8), cell(0, 0, 0, 7)];
    assert_eq!(term.frame_to_plain_string(&data, 2, 3), "#@\n?\n\n");
    assert_eq!(term.frame_to_plain_string(&[], 0, 0), "");
    assert_eq!(term.frame_to_plain_string(&[], 3, 2), "\n\n");
}

#[test]
fn colored_text_sets_a_color_where_it_changes_and_resets_at_each_line_end() {
    let term = TerminalRenderer::new(80, 24);
    let data = [
        cell(127, 60, 0, 5),
        cell(127, 60, 0, 6),
        cell(0, 255, 9, 9),
        cell(127, 60, 0, 5),
        cell(127, 60, 0, 5),
        cell(127, 60, 0, 5),
    ];
    let text = term.frame_to_ansi_string(&data, 3, 2, RenderMode::ColoredAscii);
    assert_eq!(
        text,
        "\x1b[38;2;127;60;0mPO\x1b[38;2;0;255;9m#\x1b[0m\n\x1b[38;2;127;60;0mPPP\x1b[0m\n"
    );
    assert_eq!(text, term.frame_to_colored_string(&data, 3, 2));
}

#[test]
fn colored_text_of_the_sample_word() {
    let term = TerminalRenderer::new(80, 24);
    let text = term.frame_to_colored_string(&[0x7F3C_0005], 1, 1);
    assert_eq!(text, "\x1b[38;2;127;60;0mP\x1b[0m\n");
}

#[test]
fn half_block_text_pairs_rows_and_drops_an_odd_last_row() {
    let term = TerminalRenderer::new(80, 24);
    let data = [cell(1, 2, 3, 0), cell(40, 50, 60, 0), cell(255, 255, 255, 0)];
    let text = term.frame_to_ansi_string(&data, 1, 3, RenderMode::HalfBlock);
    assert_eq!(text, "\x1b[38;2;1;2;3m\x1b[48;2;40;50;60m\u{2580}\x1b[0m\n");
    assert_eq!(text, term.frame_to_halfblock_string(&data, 1, 3));
}

#[test]
fn half_block_text_is_black_where_the_buffer_ends() {
    let term = TerminalRenderer::new(80, 24);
    let data = [cell(9, 8, 7, 0)];
    let text = term.frame_to_halfblock_string(&data, 1, 4);
    assert_eq!(
        text,
        "\x1b[38;2;9;8;7m\x1b[48;2;0;0;0m\u{2580}\x1b[0m\n\x1b[38;2;0;0;0m\x1b[48;2;0;0;0m\u{2580}\x1b[0m\n"
    );
}

#[test]
fn text_does_not_depend_on_the_terminal_size() {
    let data: Vec<u32> = (0..24u32).map(|i| cell(i as u8, 2 * i as u8, 3 * i as u8, (i % 16) as u8)).collect();
    let small = TerminalRenderer::new(2, 2);
    let large = TerminalRenderer::new(200, 100);
    let none = TerminalRenderer::new(0, 0);
    for mode in [RenderMode::PlainAscii, RenderMode::ColoredAscii, RenderMode::HalfBlock] {
        let text = large.frame_to_ansi_string(&data, 6, 4, mode);
        assert_eq!(small.frame_to_ansi_string(&data, 6, 4, mode), text);
        assert_eq!(none.frame_to_ansi_string(&data, 6, 4, mode), text);
    }
    assert_eq!(small.frame_to_plain_string(&data, 6, 4).lines().count(), 4);
    assert_eq!(small.frame_to_halfblock_string(&data, 6, 4).lines().count(), 2);
}

#[test]
fn text_of_two_bright_red_cells() {
    let term = TerminalRenderer::new(80, 24);
    let data = [0xFF00_0009u32, 0xFF00_0009];
    assert_eq!(term.frame_to_plain_string(&data, 2, 1), "##\n");
    assert_eq!(term.frame_to_colored_string(&data, 2, 1), "\x1b[38;2;255;0;0m##\x1b[0m\n");
}
