//! The display controller's wire protocol and the drawing of character cells.

use crate::font::{lit, Font};
use crate::peripherals::{gpioc, gpiod, spi5, Gpio, RegOp, Spi, GPIOC_BASE, GPIOD_BASE, SPI5_BASE};
use vstd::prelude::*;
use vstd::string::StringSliceAdditionalSpecFns;

verus! {

/// Character rows of the grid.
pub const GRID_ROWS: i16 = 30;

/// Character columns of the grid.
pub const GRID_COLUMNS: i16 = 53;

/// Pin of port D that tells the controller whether a byte is an opcode (low)
/// or data (high).
pub const DC_PIN: u8 = 13;

/// Pin of port C that selects the controller while it is low.
pub const CS_PIN: u8 = 2;

/// Parameter of the memory access control command: rows in reverse order,
/// columns in reverse order, rows exchanged with columns.
pub const PANEL_ORIENTATION: u8 = 0xe0;

/// The opcodes of the display controller that the terminal uses.
pub enum LcdCommand {
    ExitSleepMode,
    DisplayOn,
    ColumnAddressSet,
    RowAddressSet,
    MemoryWrite,
    MemoryAccessControl,
}

impl LcdCommand {
    /// The byte that goes over the wire.
    pub open spec fn opcode(&self) -> u8 {
        match self {
            LcdCommand::ExitSleepMode => 0x11,
            LcdCommand::DisplayOn => 0x29,
            LcdCommand::ColumnAddressSet => 0x2a,
            LcdCommand::RowAddressSet => 0x2b,
            LcdCommand::MemoryWrite => 0x2c,
            LcdCommand::MemoryAccessControl => 0x36,
        }
    }

    pub fn code(&self) -> (byte: u8)
        ensures
            byte == self.opcode(),
    {
        match self {
            LcdCommand::ExitSleepMode => 0x11,
            LcdCommand::DisplayOn => 0x29,
            LcdCommand::ColumnAddressSet => 0x2a,
            LcdCommand::RowAddressSet => 0x2b,
            LcdCommand::MemoryWrite => 0x2c,
            LcdCommand::MemoryAccessControl => 0x36,
        }
    }
}

/// The port of the command/data select line.
pub open spec fn dc_port() -> Gpio {
    Gpio { base: GPIOD_BASE }
}

/// The port of the chip-select line.
pub open spec fn cs_port() -> Gpio {
    Gpio { base: GPIOC_BASE }
}

/// The SPI port that leads to the controller.
pub open spec fn lcd_spi() -> Spi {
    Spi { base: SPI5_BASE }
}

/// One command on the wire: drain what is still under way, select command
/// mode, select the chip, send the opcode and wait until it has left, release
/// the chip.
pub open spec fn command_ops(cmd: LcdCommand) -> Seq<RegOp> {
    lcd_spi().flush_ops() + dc_port().set_low_ops(DC_PIN) + cs_port().set_low_ops(CS_PIN)
        + lcd_spi().write_byte_flush_ops(cmd.opcode()) + cs_port().set_high_ops(CS_PIN)
}

/// One data byte on the wire: select data mode, select the chip, hand the byte
/// to the port.  Nothing waits for the byte to leave and the chip stays
/// selected.
pub open spec fn data_ops(data: u8) -> Seq<RegOp> {
    dc_port().set_high_ops(DC_PIN) + cs_port().set_low_ops(CS_PIN) + lcd_spi().write_byte_ops(data)
}

/// The data bytes `bytes` on the wire, one after the other.
pub open spec fn burst_ops(bytes: Seq<u8>) -> Seq<RegOp>
    decreases bytes.len(),
{
    if bytes.len() == 0 {
        Seq::empty()
    } else {
        burst_ops(bytes.drop_last()) + data_ops(bytes.last())
    }
}

/// The more significant byte of a bound.
pub open spec fn high_byte(bound: u16) -> u8 {
    (bound / 256) as u8
}

/// The less significant byte of a bound.
pub open spec fn low_byte(bound: u16) -> u8 {
    (bound % 256) as u8
}

/// The two bounds of a range as the controller takes them: each with its more
/// significant byte first.
pub open spec fn range_bytes(first: u16, last: u16) -> Seq<u8> {
    seq![high_byte(first), low_byte(first), high_byte(last), low_byte(last)]
}

/// Setting the pixel columns that the next memory write fills.
pub open spec fn column_range_ops(first_column: u16, last_column: u16) -> Seq<RegOp> {
    command_ops(LcdCommand::ColumnAddressSet) + burst_ops(range_bytes(first_column, last_column))
}

/// Setting the pixel rows that the next memory write fills.
pub open spec fn row_range_ops(first_row: u16, last_row: u16) -> Seq<RegOp> {
    command_ops(LcdCommand::RowAddressSet) + burst_ops(range_bytes(first_row, last_row))
}

/// Whether (`row`, `column`) is a cell of the grid.
pub open spec fn on_grid(row: int, column: int) -> bool {
    0 <= row < GRID_ROWS && 0 <= column < GRID_COLUMNS
}

/// Addressing the pixels of one character cell: six columns from `6 * column`
/// on, eight rows from `8 * row` on, then the start of a memory write.
pub open spec fn cell_window_ops(row: int, column: int) -> Seq<RegOp> {
    column_range_ops((6 * column) as u16, (6 * column + 5) as u16) + row_range_ops(
        (8 * row) as u16,
        (8 * row + 7) as u16,
    ) + command_ops(LcdCommand::MemoryWrite)
}

/// The pixel payload of a glyph: forty-eight pixels, pixel row by pixel row,
/// three bytes each in the order blue, green, red.  A lit pixel is full green,
/// every other byte is zero.
pub open spec fn glyph_pixels(font: Font, glyph: int) -> Seq<u8> {
    Seq::new(
        144,
        |i: int|
            if i % 3 == 1 && lit(font[glyph][(i / 3) % 6], (i / 3) / 6) {
                0xffu8
            } else {
                0x00u8
            },
    )
}

/// The pixel payload of the cursor block: forty-eight pixels of full red.
pub open spec fn cursor_pixels() -> Seq<u8> {
    Seq::new(
        144,
        |i: int|
            if i % 3 == 2 {
                0xffu8
            } else {
                0x00u8
            },
    )
}

/// Drawing glyph `glyph` into the cell (`row`, `column`).
#[verifier::opaque]
pub open spec fn glyph_cell_ops(font: Font, row: int, column: int, glyph: int) -> Seq<RegOp> {
    cell_window_ops(row, column) + burst_ops(glyph_pixels(font, glyph))
}

/// Drawing the cursor block into the cell (`row`, `column`).
#[verifier::opaque]
pub open spec fn cursor_cell_ops(row: int, column: int) -> Seq<RegOp> {
    cell_window_ops(row, column) + burst_ops(cursor_pixels())
}

/// Drawing the bytes of a text from (`row`, `column`) to the right, each byte
/// as the glyph that it selects modulo thirty-two.
pub open spec fn string_ops(font: Font, row: int, column: int, text: Seq<u8>) -> Seq<RegOp>
    decreases text.len(),
{
    if text.len() == 0 {
        Seq::empty()
    } else {
        string_ops(font, row, column, text.drop_last()) + glyph_cell_ops(
            font,
            row,
            column + text.len() - 1,
            (text.last() % 32) as int,
        )
    }
}

/// The controller's start-up: leave sleep mode, switch the display on, set
/// the panel's orientation.
pub open spec fn set_up_driver_ops() -> Seq<RegOp> {
    command_ops(LcdCommand::ExitSleepMode) + command_ops(LcdCommand::DisplayOn) + command_ops(
        LcdCommand::MemoryAccessControl,
    ) + data_ops(PANEL_ORIENTATION)
}

/// One more data byte extends a burst by the accesses of that byte.
pub proof fn lemma_burst_step(before: Seq<RegOp>, bytes: Seq<u8>, sent: int)
    requires
        0 <= sent < bytes.len(),
    ensures
        before + burst_ops(bytes.take(sent)) + data_ops(bytes[sent]) == before + burst_ops(
            bytes.take(sent + 1),
        ),
{
    let longer = bytes.take(sent + 1);
    assert(longer.drop_last() =~= bytes.take(sent));
    assert(longer.last() == bytes[sent]);
    assert(before + burst_ops(bytes.take(sent)) + data_ops(bytes[sent]) =~= before + (burst_ops(
        bytes.take(sent),
    ) + data_ops(bytes[sent])));
}

/// Sends one command byte and waits until it has left the port.
pub fn lcd_command(out: &mut Vec<RegOp>, cmd: LcdCommand)
    ensures
        final(out)@ == old(out)@ + command_ops(cmd),
{
    let opcode = cmd.code();
    spi5().flush(out);
    gpiod().set_low(out, DC_PIN);
    gpioc().set_low(out, CS_PIN);
    spi5().write_byte_flush(out, opcode);
    gpioc().set_high(out, CS_PIN);
    assert(out@ =~= old(out)@ + command_ops(cmd));
}

/// Sends one data byte without waiting for it to leave.
pub fn lcd_data(out: &mut Vec<RegOp>, data: u8)
    ensures
        final(out)@ == old(out)@ + data_ops(data),
{
    gpiod().set_high(out, DC_PIN);
    gpioc().set_low(out, CS_PIN);
    spi5().write_byte(out, data);
    assert(out@ =~= old(out)@ + data_ops(data));
}

/// Sends the four bytes of a range after the opcode `cmd`.
fn lcd_range(out: &mut Vec<RegOp>, cmd: LcdCommand, first: u16, last: u16)
    ensures
        final(out)@ == old(out)@ + command_ops(cmd) + burst_ops(range_bytes(first, last)),
{
    assert((first >> 8) & 0xff == first / 256) by (bit_vector);
    assert(first & 0xff == first % 256) by (bit_vector);
    assert((last >> 8) & 0xff == last / 256) by (bit_vector);
    assert(last & 0xff == last % 256) by (bit_vector);
    lcd_command(out, cmd);
    let ghost before = out@;
    let ghost bytes = range_bytes(first, last);
    assert(before + burst_ops(bytes.take(0)) =~= before);
    lcd_data(out, ((first >> 8) & 0xff) as u8);
    proof {
        lemma_burst_step(before, bytes, 0);
    }
    lcd_data(out, (first & 0xff) as u8);
    proof {
        lemma_burst_step(before, bytes, 1);
    }
    lcd_data(out, ((last >> 8) & 0xff) as u8);
    proof {
        lemma_burst_step(before, bytes, 2);
    }
    lcd_data(out, (last & 0xff) as u8);
    proof {
        lemma_burst_step(before, bytes, 3);
        assert(bytes.take(4) =~= bytes);
    }
}

/// Sets the pixel columns that the next memory write fills, both bounds
/// included.
pub fn lcd_column_range(out: &mut Vec<RegOp>, first_column: u16, last_column: u16)
    ensures
        final(out)@ == old(out)@ + column_range_ops(first_column, last_column),
{
    lcd_range(out, LcdCommand::ColumnAddressSet, first_column, last_column);
    assert(out@ =~= old(out)@ + column_range_ops(first_column, last_column));
}

/// Sets the pixel rows that the next memory write fills, both bounds included.
pub fn lcd_row_range(out: &mut Vec<RegOp>, first_row: u16, last_row: u16)
    ensures
        final(out)@ == old(out)@ + row_range_ops(first_row, last_row),
{
    lcd_range(out, LcdCommand::RowAddressSet, first_row, last_row);
    assert(out@ =~= old(out)@ + row_range_ops(first_row, last_row));
}

/// Addresses the cell (`row`, `column`) and starts a memory write.
fn open_cell(out: &mut Vec<RegOp>, row: i16, column: i16)
    requires
        on_grid(row as int, column as int),
    ensures
        final(out)@ == old(out)@ + cell_window_ops(row as int, column as int),
{
    lcd_column_range(out, (column * 6) as u16, (column * 6 + 5) as u16);
    lcd_row_range(out, (row * 8) as u16, (row * 8 + 7) as u16);
    lcd_command(out, LcdCommand::MemoryWrite);
    assert(out@ =~= old(out)@ + cell_window_ops(row as int, column as int));
}

/// Draws glyph `glyph` of `font` into the cell (`row`, `column`): green strokes
/// on black.
pub fn draw_char_at(out: &mut Vec<RegOp>, font: &Font, row: i16, column: i16, glyph: u8)
    requires
        on_grid(row as int, column as int),
        glyph < 32,
    ensures
        final(out)@ == old(out)@ + glyph_cell_ops(*font, row as int, column as int, glyph as int),
{
    open_cell(out, row, column);
    let ghost before = out@;
    let ghost pixels = glyph_pixels(*font, glyph as int);
    assert(before + burst_ops(pixels.take(0)) =~= before);
    let mut char_row: u8 = 0;
    while char_row < 8
        invariant
            char_row <= 8,
            glyph < 32,
            pixels == glyph_pixels(*font, glyph as int),
            out@ == before + burst_ops(pixels.take(18 * char_row)),
        decreases 8 - char_row,
    {
        let mut char_column: usize = 0;
        while char_column < 6
            invariant
                char_row < 8,
                char_column <= 6,
                glyph < 32,
                pixels == glyph_pixels(*font, glyph as int),
                out@ == before + burst_ops(pixels.take(18 * char_row + 3 * char_column)),
            decreases 6 - char_column,
        {
            let on = font[glyph as usize][char_column] & (1u8 << char_row) != 0;
            let ghost sent = 18 * char_row + 3 * char_column;
            assert(on == lit(font[glyph as int][char_column as int], char_row as int));
            lcd_data(out, 0x00);
            proof {
                lemma_burst_step(before, pixels, sent);
            }
            lcd_data(
                out,
                if on {
                    0xff
                } else {
                    0x00
                },
            );
            proof {
                lemma_burst_step(before, pixels, sent + 1);
            }
            lcd_data(out, 0x00);
            proof {
                lemma_burst_step(before, pixels, sent + 2);
            }
            char_column = char_column + 1;
        }
        char_row = char_row + 1;
    }
    assert(pixels.take(144) =~= pixels);
    reveal(glyph_cell_ops);
    assert(out@ =~= old(out)@ + glyph_cell_ops(*font, row as int, column as int, glyph as int));
}

/// Draws the cursor block into the cell (`row`, `column`): solid red.
pub fn draw_cursor_at(out: &mut Vec<RegOp>, row: i16, column: i16)
    requires
        on_grid(row as int, column as int),
    ensures
        final(out)@ == old(out)@ + cursor_cell_ops(row as int, column as int),
{
    open_cell(out, row, column);
    let ghost before = out@;
    let ghost pixels = cursor_pixels();
    assert(before + burst_ops(pixels.take(0)) =~= before);
    let mut pixel: u8 = 0;
    while pixel < 48
        invariant
            pixel <= 48,
            pixels == cursor_pixels(),
            out@ == before + burst_ops(pixels.take(3 * pixel)),
        decreases 48 - pixel,
    {
        lcd_data(out, 0x00);
        proof {
            lemma_burst_step(before, pixels, 3 * pixel);
        }
        lcd_data(out, 0x00);
        proof {
            lemma_burst_step(before, pixels, 3 * pixel + 1);
        }
        lcd_data(out, 0xff);
        proof {
            lemma_burst_step(before, pixels, 3 * pixel + 2);
        }
        pixel = pixel + 1;
    }
    assert(pixels.take(144) =~= pixels);
    reveal(cursor_cell_ops);
    assert(out@ =~= old(out)@ + cursor_cell_ops(row as int, column as int));
}

/// Draws `text` from the cell (`row`, `column`) to the right, one cell per
/// byte, each byte as the glyph that it selects modulo thirty-two.
pub fn draw_string_at(out: &mut Vec<RegOp>, font: &Font, row: i16, column: i16, text: &str)
    requires
        on_grid(row as int, column as int),
        column + text.spec_bytes().len() <= GRID_COLUMNS,
    ensures
        final(out)@ == old(out)@ + string_ops(*font, row as int, column as int, text.spec_bytes()),
{
    let bytes = text.as_bytes();
    let ghost before = out@;
    let mut i: usize = 0;
    assert(before + string_ops(*font, row as int, column as int, bytes@.take(0)) =~= before);
    while i < bytes.len()
        invariant
            i <= bytes.len(),
            on_grid(row as int, column as int),
            column + bytes@.len() <= GRID_COLUMNS,
            out@ == before + string_ops(*font, row as int, column as int, bytes@.take(i as int)),
        decreases bytes.len() - i,
    {
        let ghost drawn = bytes@.take(i as int);
        let ghost longer = bytes@.take(i + 1);
        assert(longer.drop_last() =~= drawn);
        draw_char_at(out, font, row, column + (i as i16), bytes[i] % 32);
        assert(out@ =~= before + string_ops(*font, row as int, column as int, longer));
        i = i + 1;
    }
    assert(bytes@.take(bytes@.len() as int) =~= bytes@);
}

/// Wakes the display controller and sets the panel's orientation.
pub fn lcd_set_up_driver(out: &mut Vec<RegOp>)
    ensures
        final(out)@ == old(out)@ + set_up_driver_ops(),
{
    lcd_command(out, LcdCommand::ExitSleepMode);
    lcd_command(out, LcdCommand::DisplayOn);
    lcd_command(out, LcdCommand::MemoryAccessControl);
    lcd_data(out, PANEL_ORIENTATION);
    assert(out@ =~= old(out)@ + set_up_driver_ops());
}

/// The greeting that the terminal shows until the first key.
pub const DEMO_TEXT: &'static str = "PLEASE TYPE SOME STUFF ON THE UART";

/// Character row of the greeting.
pub const DEMO_ROW: i16 = 14;

/// Character column of the greeting's first byte.
pub const DEMO_COLUMN: i16 = 9;

/// Draws the greeting.
pub fn draw_demo(out: &mut Vec<RegOp>, font: &Font)
    ensures
        final(out)@ == old(out)@ + string_ops(
            *font,
            DEMO_ROW as int,
            DEMO_COLUMN as int,
            DEMO_TEXT.spec_bytes(),
        ),
{
    proof {
        reveal_strlit("PLEASE TYPE SOME STUFF ON THE UART");
        assert(vstd::string::is_ascii(DEMO_TEXT));
        vstd::string::is_ascii_spec_bytes(DEMO_TEXT);
    }
    draw_string_at(out, font, DEMO_ROW, DEMO_COLUMN, DEMO_TEXT);
}

/// A drawn glyph shows the font's bitmap: of the pixel in pixel row `row` and
/// pixel column `col`, blue and red are zero, and green is full if the font
/// has the bit set and zero if not.  The payload holds nothing but the
/// forty-eight pixels.
pub proof fn lemma_glyph_pixels_show_bitmap(font: Font, glyph: int, row: int, col: int)
    requires
        0 <= glyph < 32,
        0 <= row < 8,
        0 <= col < 6,
    ensures
        glyph_pixels(font, glyph).len() == 3 * 48,
        glyph_pixels(font, glyph)[3 * (6 * row + col)] == 0x00,
        glyph_pixels(font, glyph)[3 * (6 * row + col) + 1] == if lit(font[glyph][col], row) {
            0xffu8
        } else {
            0x00u8
        },
        glyph_pixels(font, glyph)[3 * (6 * row + col) + 2] == 0x00,
{
    let pixel = 6 * row + col;
    assert((3 * pixel) % 3 == 0 && (3 * pixel) / 3 == pixel);
    assert((3 * pixel + 1) % 3 == 1 && (3 * pixel + 1) / 3 == pixel);
    assert((3 * pixel + 2) % 3 == 2 && (3 * pixel + 2) / 3 == pixel);
    assert(pixel % 6 == col && pixel / 6 == row);
}

/// Drawing a glyph without a lit pixel erases the cell: every byte of its
/// payload is zero.
pub proof fn lemma_blank_glyph_is_black(font: Font, glyph: int)
    requires
        0 <= glyph < 32,
        forall|row: int, col: int| 0 <= row < 8 && 0 <= col < 6 ==> !#[trigger] lit(font[glyph][col], row),
    ensures
        glyph_pixels(font, glyph) == Seq::new(144, |i: int| 0x00u8),
{
    assert forall|i: int| 0 <= i < 144 implies glyph_pixels(font, glyph)[i] == 0x00u8 by {
        assert(!lit(font[glyph][(i / 3) % 6], (i / 3) / 6));
    }
    assert(glyph_pixels(font, glyph) =~= Seq::new(144, |i: int| 0x00u8));
}

/// Every pixel of the cursor block is full red and nothing else.
pub proof fn lemma_cursor_pixels_red(pixel: int)
    requires
        0 <= pixel < 48,
    ensures
        cursor_pixels().len() == 3 * 48,
        cursor_pixels()[3 * pixel] == 0x00,
        cursor_pixels()[3 * pixel + 1] == 0x00,
        cursor_pixels()[3 * pixel + 2] == 0xff,
{
}

/// The bounds that address a cell of the grid are sent without loss: read
/// back with the more significant byte first, they are the cell's first and
/// last pixel column, `6 * column` and `6 * column + 5`, and its first and
/// last pixel row, `8 * row` and `8 * row + 7`.
pub proof fn lemma_cell_window_bounds(row: int, column: int)
    requires
        on_grid(row, column),
    ensures
        cell_window_ops(row, column) == command_ops(LcdCommand::ColumnAddressSet) + burst_ops(
            range_bytes((6 * column) as u16, (6 * column + 5) as u16),
        ) + command_ops(LcdCommand::RowAddressSet) + burst_ops(
            range_bytes((8 * row) as u16, (8 * row + 7) as u16),
        ) + command_ops(LcdCommand::MemoryWrite),
        256 * high_byte((6 * column) as u16) + low_byte((6 * column) as u16) == 6 * column,
        256 * high_byte((6 * column + 5) as u16) + low_byte((6 * column + 5) as u16) == 6 * column
            + 5,
        256 * high_byte((8 * row) as u16) + low_byte((8 * row) as u16) == 8 * row,
        256 * high_byte((8 * row + 7) as u16) + low_byte((8 * row + 7) as u16) == 8 * row + 7,
{
    assert(cell_window_ops(row, column) =~= command_ops(LcdCommand::ColumnAddressSet) + burst_ops(
        range_bytes((6 * column) as u16, (6 * column + 5) as u16),
    ) + command_ops(LcdCommand::RowAddressSet) + burst_ops(
        range_bytes((8 * row) as u16, (8 * row + 7) as u16),
    ) + command_ops(LcdCommand::MemoryWrite));
}

} // verus!
