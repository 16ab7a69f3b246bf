use lcd_terminal::font::{font, mk_font, FONT_ART};

fn blank_art() -> [&'static str; 256] {
    ["      "; 256]
}

#[test]
fn built_in_font_has_a_blank_first_glyph() {
    assert_eq!(font()[0], [0u8; 6]);
}

#[test]
fn built_in_font_letter_a() {
    // Legs in pixel rows 2 to 6, bar in row 4, tip in row 0.
    assert_eq!(font()[1], [0x7c, 0x12, 0x11, 0x12, 0x7c, 0x00]);
}

#[test]
fn built_in_font_letter_e_and_underscore() {
    assert_eq!(font()[5], [0x7f, 0x49, 0x49, 0x49, 0x41, 0x00]);
    assert_eq!(font()[31], [0x40, 0x40, 0x40, 0x40, 0x40, 0x00]);
}

#[test]
fn built_in_font_is_its_drawing() {
    assert_eq!(mk_font(FONT_ART), Some(font()));
}

#[test]
fn font_bits_are_the_marks_of_the_drawing() {
    let table = font();
    for glyph in 0..32 {
        for col in 0..6 {
            for row in 0..8 {
                let marked = FONT_ART[row * 32 + glyph].as_bytes()[col] != b' ';
                assert_eq!(table[glyph][col] & (1 << row) != 0, marked);
            }
        }
    }
}

#[test]
fn mk_font_sets_one_bit_for_one_mark() {
    for glyph in 0..32 {
        for col in 0..6 {
            for row in 0..8 {
                let mut text = String::from("      ");
                text.replace_range(col..col + 1, "*");
                let mut art = blank_art();
                art[row * 32 + glyph] = text.as_str();
                let table = mk_font(art).unwrap();
                for g in 0..32 {
                    for c in 0..6 {
                        let expected = if g == glyph && c == col { 1u8 << row } else { 0 };
                        assert_eq!(table[g][c], expected);
                    }
                }
            }
        }
    }
}

#[test]
fn mk_font_takes_any_byte_but_a_space_as_a_mark() {
    let mut art = blank_art();
    art[0] = "#x.\t0~";
    art[7 * 32] = "  __  ";
    let table = mk_font(art).unwrap();
    assert_eq!(table[0], [0x01, 0x01, 0x81, 0x81, 0x01, 0x01]);
}

#[test]
fn mk_font_full_glyph() {
    let mut art = blank_art();
    for row in 0..8 {
        art[row * 32 + 31] = "######";
    }
    let table = mk_font(art).unwrap();
    assert_eq!(table[31], [0xff; 6]);
    assert_eq!(table[30], [0x00; 6]);
}

#[test]
fn mk_font_refuses_a_short_row() {
    let mut art = blank_art();
    art[200] = "     ";
    assert_eq!(mk_font(art), None);
}

#[test]
fn mk_font_refuses_a_long_row() {
    let mut art = blank_art();
    art[255] = "       ";
    assert_eq!(mk_font(art), None);
    let mut art = blank_art();
    art[0] = "";
    assert_eq!(mk_font(art), None);
}

#[test]
fn mk_font_counts_bytes_not_characters() {
    let mut art = blank_art();
    art[3] = "  \u{e9}   ";
    assert_eq!(mk_font(art), None);
    art[3] = "  \u{e9}  ";
    let table = mk_font(art).unwrap();
    assert_eq!(table[3], [0x00, 0x00, 0x01, 0x01, 0x00, 0x00]);
}
