//! The bitmap font: thirty-two glyphs of six columns by eight rows.

use vstd::prelude::*;
use vstd::string::StringSliceAdditionalSpecFns;

verus! {

/// Glyphs in a font.
pub const GLYPHS: usize = 32;

/// Pixel rows of a glyph.
pub const GLYPH_ROWS: usize = 8;

/// Pixel columns of a glyph.
pub const GLYPH_COLUMNS: usize = 6;

/// The byte that stands for a blank pixel in a drawing.
pub const BLANK: u8 = 0x20;

/// A font table: one byte per glyph column, bit `r` of which is pixel row `r`.
pub type Font = [[u8; 6]; 32];

/// Whether pixel row `row` is lit in the column byte `column`.
pub open spec fn lit(column: u8, row: int) -> bool {
    column & (1u8 << (row as u8)) != 0
}

/// Whether the drawing marks pixel (`row`, `col`) of glyph `glyph`.
///
/// A drawing is a list of text rows.  The glyphs stand side by side: the first
/// thirty-two rows of the list are the top pixel rows of the glyphs in order,
/// the next thirty-two their second pixel rows, and so on.  Every byte but a
/// space is a mark.
pub open spec fn marked(rows: Seq<&str>, glyph: int, row: int, col: int) -> bool {
    rows[row * 32 + glyph].spec_bytes()[col] != BLANK
}

/// Every row of the drawing is exactly as wide as a glyph.
pub open spec fn well_drawn(rows: Seq<&str>) -> bool {
    forall|i: int| 0 <= i < rows.len() ==> (#[trigger] rows[i]).spec_bytes().len() == 6
}

/// The table `font` holds exactly the marks of the drawing `rows`.
pub open spec fn depicts(font: Font, rows: Seq<&str>) -> bool {
    forall|glyph: int, col: int, row: int|
        0 <= glyph < 32 && 0 <= col < 6 && 0 <= row < 8 ==> #[trigger] lit(font[glyph][col], row)
            == marked(rows, glyph, row, col)
}

proof fn lemma_no_bit_lit(q: u8)
    by (bit_vector)
    requires
        q < 8,
    ensures
        0u8 & (1u8 << q) == 0,
{
}

proof fn lemma_bit_set(b: u8, r: u8, q: u8)
    by (bit_vector)
    requires
        r < 8,
        q < 8,
    ensures
        ((b | (1u8 << r)) & (1u8 << q) != 0) == ((b & (1u8 << q) != 0) || q == r),
{
}

/// Packs one glyph column: bit `r` of the result is set exactly where the
/// drawing marks pixel (`r`, `col`) of `glyph`.
fn pack_column(rows: &[&str; 256], glyph: usize, col: usize) -> (column: u8)
    requires
        well_drawn(rows@),
        glyph < 32,
        col < 6,
    ensures
        forall|row: int| 0 <= row < 8 ==> #[trigger] lit(column, row) == marked(rows@, glyph as int, row, col as int),
{
    let mut column_byte: u8 = 0;
    let mut row: u8 = 0;
    proof {
        assert forall|q: int| 0 <= q < 8 implies !#[trigger] lit(column_byte, q) by {
            lemma_no_bit_lit(q as u8);
        }
    }
    while row < 8
        invariant
            well_drawn(rows@),
            glyph < 32,
            col < 6,
            row <= 8,
            forall|q: int| 0 <= q < row ==> #[trigger] lit(column_byte, q) == marked(rows@, glyph as int, q, col as int),
            forall|q: int| row <= q < 8 ==> !#[trigger] lit(column_byte, q),
        decreases 8 - row,
    {
        let index: usize = (row as usize) * 32 + glyph;
        let text = rows[index].as_bytes();
        assert(text@ == rows@[index as int].spec_bytes());
        if text[col] != BLANK {
            let ghost before = column_byte;
            column_byte = column_byte | (1u8 << row);
            proof {
                assert forall|q: int| 0 <= q < 8 implies #[trigger] lit(column_byte, q) == (lit(before, q)
                    || q == row) by {
                    lemma_bit_set(before, row, q as u8);
                }
            }
        }
        row = row + 1;
    }
    column_byte
}

/// Builds the font table from a drawing of its glyphs.
///
/// The table exists exactly when every row of the drawing is six bytes wide.
/// It then holds the drawing: for each glyph, bit `r` of the byte of column
/// `c` is set if and only if the drawing marks pixel (`r`, `c`).
pub fn mk_font(rows: [&str; 256]) -> (table: Option<Font>)
    ensures
        table is Some <==> well_drawn(rows@),
        table matches Some(font) ==> depicts(font, rows@),
{
    let mut checked: usize = 0;
    while checked < 256
        invariant
            checked <= 256,
            forall|i: int| 0 <= i < checked ==> (#[trigger] rows@[i]).spec_bytes().len() == 6,
        decreases 256 - checked,
    {
        if rows[checked].as_bytes().len() != 6 {
            return None;
        }
        checked = checked + 1;
    }
    let mut font: Font = [[0u8; 6]; 32];
    let mut glyph: usize = 0;
    while glyph < 32
        invariant
            well_drawn(rows@),
            glyph <= 32,
            forall|g: int, col: int, row: int|
                0 <= g < glyph && 0 <= col < 6 && 0 <= row < 8 ==> #[trigger] lit(font[g][col], row)
                    == marked(rows@, g, row, col),
        decreases 32 - glyph,
    {
        let mut columns: [u8; 6] = [0u8; 6];
        let mut col: usize = 0;
        while col < 6
            invariant
                well_drawn(rows@),
                glyph < 32,
                col <= 6,
                forall|c: int, row: int|
                    0 <= c < col && 0 <= row < 8 ==> #[trigger] lit(columns[c], row) == marked(
                        rows@,
                        glyph as int,
                        row,
                        c,
                    ),
            decreases 6 - col,
        {
            let column_byte = pack_column(&rows, glyph, col);
            columns[col] = column_byte;
            col = col + 1;
        }
        font[glyph] = columns;
        glyph = glyph + 1;
    }
    Some(font)
}

/// The drawing of the built-in font: a blank, the capital letters, and the
/// five signs that follow them in the character set.
pub const FONT_ART: [&'static str; 256] = [
    "      ", "  #   ", "####  ", " ###  ", "###   ", "##### ", "##### ", " ###  ", "#   # ", " ###  ", "  ### ", "#   # ", "#     ", "#   # ", "#   # ", " ###  ", "####  ", " ###  ", "####  ", " #### ", "##### ", "#   # ", "#   # ", "#   # ", "#   # ", "#   # ", "##### ", " ###  ", "      ", " ###  ", "  #   ", "      ",
    "      ", " # #  ", "#   # ", "#   # ", "#  #  ", "#     ", "#     ", "#   # ", "#   # ", "  #   ", "   #  ", "#  #  ", "#     ", "## ## ", "#   # ", "#   # ", "#   # ", "#   # ", "#   # ", "#     ", "  #   ", "#   # ", "#   # ", "#   # ", "#   # ", "#   # ", "    # ", " #    ", "#     ", "   #  ", " # #  ", "      ",
    "      ", "#   # ", "#   # ", "#     ", "#   # ", "#     ", "#     ", "#     ", "#   # ", "  #   ", "   #  ", "# #   ", "#     ", "# # # ", "##  # ", "#   # ", "#   # ", "#   # ", "#   # ", "#     ", "  #   ", "#   # ", "#   # ", "#   # ", " # #  ", " # #  ", "   #  ", " #    ", " #    ", "   #  ", "#   # ", "      ",
    "      ", "#   # ", "####  ", "#     ", "#   # ", "####  ", "####  ", "# ### ", "##### ", "  #   ", "   #  ", "##    ", "#     ", "# # # ", "# # # ", "#   # ", "####  ", "#   # ", "####  ", " ###  ", "  #   ", "#   # ", "#   # ", "# # # ", "  #   ", "  #   ", "  #   ", " #    ", "  #   ", "   #  ", "      ", "      ",
    "      ", "##### ", "#   # ", "#     ", "#   # ", "#     ", "#     ", "#   # ", "#   # ", "  #   ", "   #  ", "# #   ", "#     ", "#   # ", "#  ## ", "#   # ", "#     ", "# # # ", "# #   ", "    # ", "  #   ", "#   # ", "#   # ", "# # # ", " # #  ", "  #   ", " #    ", " #    ", "   #  ", "   #  ", "      ", "      ",
    "      ", "#   # ", "#   # ", "#   # ", "#  #  ", "#     ", "#     ", "#   # ", "#   # ", "  #   ", "#  #  ", "#  #  ", "#     ", "#   # ", "#   # ", "#   # ", "#     ", "#  #  ", "#  #  ", "    # ", "  #   ", "#   # ", " # #  ", "## ## ", "#   # ", "  #   ", "#     ", " #    ", "    # ", "   #  ", "      ", "      ",
    "      ", "#   # ", "####  ", " ###  ", "###   ", "##### ", "#     ", " ###  ", "#   # ", " ###  ", " ##   ", "#   # ", "##### ", "#   # ", "#   # ", " ###  ", "#     ", " ## # ", "#   # ", "####  ", "  #   ", " ###  ", "  #   ", "#   # ", "#   # ", "  #   ", "##### ", " ###  ", "      ", " ###  ", "      ", "##### ",
    "      ", "      ", "      ", "      ", "      ", "      ", "      ", "      ", "      ", "      ", "      ", "      ", "      ", "      ", "      ", "      ", "      ", "      ", "      ", "      ", "      ", "      ", "      ", "      ", "      ", "      ", "      ", "      ", "      ", "      ", "      ", "      ",
];

proof fn lemma_art_well_drawn()
    ensures
        well_drawn(FONT_ART@),
{
    reveal_strlit("      ");
    reveal_strlit("    # ");
    reveal_strlit("   #  ");
    reveal_strlit("  #   ");
    reveal_strlit("  ### ");
    reveal_strlit(" #    ");
    reveal_strlit(" # #  ");
    reveal_strlit(" ##   ");
    reveal_strlit(" ## # ");
    reveal_strlit(" ###  ");
    reveal_strlit(" #### ");
    reveal_strlit("#     ");
    reveal_strlit("#   # ");
    reveal_strlit("#  #  ");
    reveal_strlit("#  ## ");
    reveal_strlit("# #   ");
    reveal_strlit("# # # ");
    reveal_strlit("# ### ");
    reveal_strlit("##    ");
    reveal_strlit("##  # ");
    reveal_strlit("## ## ");
    reveal_strlit("###   ");
    reveal_strlit("####  ");
    reveal_strlit("##### ");
    assert forall|i: int| 0 <= i < 256 implies (#[trigger] FONT_ART@[i]).spec_bytes().len() == 6 by {
        assert(vstd::string::is_ascii(FONT_ART@[i]));
        vstd::string::is_ascii_spec_bytes(FONT_ART@[i]);
    }
}

/// The drawing leaves every pixel of glyph 0 blank.
pub proof fn lemma_art_first_glyph_blank()
    ensures
        forall|row: int, col: int|
            0 <= row < 8 && 0 <= col < 6 ==> !#[trigger] marked(FONT_ART@, 0, row, col),
{
    reveal_strlit("      ");
    assert forall|row: int, col: int| 0 <= row < 8 && 0 <= col < 6 implies !#[trigger] marked(
        FONT_ART@,
        0,
        row,
        col,
    ) by {
        let text = FONT_ART@[row * 32];
        assert(text@ == "      "@);
        assert(vstd::string::is_ascii(text));
        vstd::string::is_ascii_spec_bytes(text);
    }
}

/// Builds the built-in font from its drawing.  Its glyph 0 is blank, so
/// drawing it erases a cell.
pub fn font() -> (table: Font)
    ensures
        depicts(table, FONT_ART@),
        forall|row: int, col: int| 0 <= row < 8 && 0 <= col < 6 ==> !#[trigger] lit(table[0][col], row),
{
    proof {
        lemma_art_well_drawn();
        lemma_art_first_glyph_blank();
    }
    mk_font(FONT_ART).unwrap()
}

} // verus!
