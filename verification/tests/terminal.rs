use lcd_terminal::display::{draw_char_at, draw_cursor_at};
use lcd_terminal::font::font;
use lcd_terminal::peripherals::RegOp;
use lcd_terminal::terminal::{echo_characters_on_screen, InputState, Terminal};

fn at(row: i16, column: i16) -> Terminal {
    Terminal { row, column, state: InputState::Normal }
}

/// The accesses of a stroke over one cell followed by the cursor on another.
fn stroke_then_cursor(from: (i16, i16), glyph: u8, to: (i16, i16)) -> Vec<RegOp> {
    let mut expected = Vec::new();
    draw_char_at(&mut expected, &font(), from.0, from.1, glyph);
    draw_cursor_at(&mut expected, to.0, to.1);
    expected
}

fn feed(start: Terminal, input: &[u8]) -> (Terminal, Vec<RegOp>) {
    let mut terminal = start;
    let mut out = Vec::new();
    echo_characters_on_screen(&mut out, &font(), &mut terminal, input);
    (terminal, out)
}

#[test]
fn new_terminal_is_at_the_top_left() {
    assert_eq!(Terminal::new(), at(0, 0));
}

#[test]
fn show_cursor_draws_the_block_on_the_cursor() {
    let mut out = Vec::new();
    at(4, 9).show_cursor(&mut out);
    let mut expected = Vec::new();
    draw_cursor_at(&mut expected, 4, 9);
    assert_eq!(out, expected);
}

#[test]
fn glyph_in_the_last_column_wraps_to_the_next_row() {
    let (terminal, out) = feed(at(0, 52), &[65]);
    assert_eq!(terminal, at(1, 0));
    assert_eq!(out, stroke_then_cursor((0, 52), 1, (1, 0)));
}

#[test]
fn carriage_return_goes_to_the_start_of_the_next_row() {
    let (terminal, out) = feed(at(5, 10), &[13]);
    assert_eq!(terminal, at(6, 0));
    assert_eq!(out, stroke_then_cursor((5, 10), 0, (6, 0)));
}

#[test]
fn delete_in_the_first_column_wraps_to_the_row_above() {
    let (terminal, out) = feed(at(2, 0), &[127]);
    assert_eq!(terminal, at(1, 52));
    assert_eq!(out, stroke_then_cursor((2, 0), 0, (1, 52)));
}

#[test]
fn escape_up_moves_one_row_up() {
    let (terminal, out) = feed(at(3, 3), &[27, 0, 65]);
    assert_eq!(terminal, at(2, 3));
    assert_eq!(out, stroke_then_cursor((3, 3), 0, (2, 3)));
}

#[test]
fn escape_with_unknown_key_leaves_the_cursor() {
    let (terminal, out) = feed(at(0, 0), &[27, 0, 200]);
    assert_eq!(terminal, at(0, 0));
    assert_eq!(out, stroke_then_cursor((0, 0), 0, (0, 0)));
}

#[test]
fn escape_down_right_left() {
    assert_eq!(feed(at(3, 3), &[27, 91, 66]).0, at(4, 3));
    assert_eq!(feed(at(3, 3), &[27, 91, 67]).0, at(3, 4));
    assert_eq!(feed(at(3, 3), &[27, 91, 68]).0, at(3, 2));
    assert_eq!(feed(at(3, 3), &[27, 91, 66]).1, stroke_then_cursor((3, 3), 0, (4, 3)));
}

#[test]
fn escape_skips_its_second_byte_whatever_it_is() {
    // Neither a carriage return nor another escape in second place counts.
    assert_eq!(feed(at(3, 3), &[27, 13, 65]).0, at(2, 3));
    assert_eq!(feed(at(3, 3), &[27, 27, 66]).0, at(4, 3));
    assert_eq!(feed(at(3, 3), &[27, 127, 27]).0, at(3, 3));
}

#[test]
fn escape_draws_nothing_before_its_third_byte() {
    let mut terminal = at(7, 7);
    let mut out = Vec::new();
    terminal.receive(&mut out, &font(), 27);
    assert_eq!(terminal, Terminal { row: 7, column: 7, state: InputState::EscapeSeen { skipped: false } });
    assert!(out.is_empty());
    terminal.receive(&mut out, &font(), 91);
    assert_eq!(terminal, Terminal { row: 7, column: 7, state: InputState::EscapeSeen { skipped: true } });
    assert!(out.is_empty());
    terminal.receive(&mut out, &font(), 67);
    assert_eq!(terminal, at(7, 8));
    assert_eq!(out, stroke_then_cursor((7, 7), 0, (7, 8)));
}

#[test]
fn advance_reports_the_stroke() {
    let mut terminal = at(0, 0);
    assert_eq!(terminal.advance(b'Z'), Some(26));
    assert_eq!(terminal, at(0, 1));
    assert_eq!(terminal.advance(13), Some(0));
    assert_eq!(terminal, at(1, 0));
    assert_eq!(terminal.advance(27), None);
    assert_eq!(terminal.advance(b'['), None);
    assert_eq!(terminal.advance(b'A'), Some(0));
    assert_eq!(terminal, at(0, 0));
    assert_eq!(terminal.advance(127), Some(0));
    assert_eq!(terminal, at(29, 52));
    assert_eq!(terminal.advance(255), Some(31));
    assert_eq!(terminal, at(0, 0));
}

#[test]
fn glyph_is_the_byte_modulo_thirty_two() {
    for byte in 0..=255u8 {
        if byte == 13 || byte == 27 || byte == 127 {
            continue;
        }
        let (terminal, out) = feed(at(10, 10), &[byte]);
        assert_eq!(terminal, at(10, 11));
        assert_eq!(out, stroke_then_cursor((10, 10), byte % 32, (10, 11)));
    }
}

#[test]
fn rows_wrap_around_both_edges() {
    assert_eq!(feed(at(29, 4), &[13]).0, at(0, 0));
    assert_eq!(feed(at(29, 4), &[27, 0, 66]).0, at(0, 4));
    assert_eq!(feed(at(0, 4), &[27, 0, 65]).0, at(29, 4));
    assert_eq!(feed(at(29, 52), &[b'A']).0, at(0, 0));
    assert_eq!(feed(at(0, 0), &[127]).0, at(29, 52));
}

#[test]
fn columns_wrap_with_a_carry_into_the_row() {
    assert_eq!(feed(at(8, 52), &[27, 0, 67]).0, at(9, 0));
    assert_eq!(feed(at(8, 0), &[27, 0, 68]).0, at(7, 52));
    assert_eq!(feed(at(29, 52), &[27, 0, 67]).0, at(0, 0));
    assert_eq!(feed(at(0, 0), &[27, 0, 68]).0, at(29, 52));
}

#[test]
fn cursor_stays_on_the_grid() {
    let mut terminal = Terminal::new();
    let mut out = Vec::new();
    let table = font();
    let mut byte: u8 = 1;
    for _ in 0..5000 {
        byte = byte.wrapping_mul(73).wrapping_add(41);
        out.clear();
        terminal.receive(&mut out, &table, byte);
        assert!((0..30).contains(&terminal.row));
        assert!((0..53).contains(&terminal.column));
    }
}

#[test]
fn a_line_of_text_is_echoed_cell_by_cell() {
    let (terminal, out) = feed(Terminal::new(), b"AB\rC");
    assert_eq!(terminal, at(1, 1));
    let mut expected = stroke_then_cursor((0, 0), 1, (0, 1));
    expected.extend(stroke_then_cursor((0, 1), 2, (0, 2)));
    expected.extend(stroke_then_cursor((0, 2), 0, (1, 0)));
    expected.extend(stroke_then_cursor((1, 0), 3, (1, 1)));
    assert_eq!(out, expected);
}

#[test]
fn input_split_in_the_middle_of_a_key_gives_the_same() {
    let whole = feed(at(3, 3), &[b'X', 27, 0, 68, 27, 91, 65, 127]);
    let mut terminal = at(3, 3);
    let mut out = Vec::new();
    let table = font();
    echo_characters_on_screen(&mut out, &table, &mut terminal, &[b'X', 27]);
    echo_characters_on_screen(&mut out, &table, &mut terminal, &[0]);
    echo_characters_on_screen(&mut out, &table, &mut terminal, &[68, 27, 91]);
    echo_characters_on_screen(&mut out, &table, &mut terminal, &[65, 127]);
    assert_eq!((terminal, out), whole);
    assert_eq!(whole.0, at(2, 2));
}

#[test]
fn no_input_changes_nothing() {
    let (terminal, out) = feed(at(12, 34), &[]);
    assert_eq!(terminal, at(12, 34));
    assert!(out.is_empty());
}
