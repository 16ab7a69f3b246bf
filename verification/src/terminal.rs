//! The terminal: a cursor on the character grid, moved by the bytes of the
//! serial input.

use crate::display::{cursor_cell_ops, draw_char_at, draw_cursor_at, glyph_cell_ops, on_grid};
use crate::font::Font;
use crate::peripherals::RegOp;
use vstd::prelude::*;

verus! {

/// Carriage return: down one row, back to the first column.
pub const CR: u8 = 13;

/// Escape: the first byte of a cursor key's three.
pub const ESC: u8 = 27;

/// Delete: back one column.
pub const DEL: u8 = 127;

/// Last byte of the cursor keys.
pub const KEY_UP: u8 = 65;

pub const KEY_DOWN: u8 = 66;

pub const KEY_RIGHT: u8 = 67;

pub const KEY_LEFT: u8 = 68;

/// Where the terminal stands within its input.
#[derive(Clone, Copy, Debug, PartialEq, Eq)]
pub enum InputState {
    /// The next byte is a key of its own.
    Normal,
    /// An escape has arrived.  Two more bytes belong to it: the first is
    /// skipped whatever it is, the second says where the cursor goes.
    EscapeSeen { skipped: bool },
}

/// The terminal's state between two bytes.
#[derive(Clone, Copy, Debug, PartialEq, Eq)]
pub struct Terminal {
    pub row: i16,
    pub column: i16,
    pub state: InputState,
}

/// The cell that a cursor which has left (`row`, `column`) by one step comes
/// to rest on.  A column past either end of its row carries into the row
/// above or below; then both coordinates wrap around the grid.  The single
/// carry is enough because a step moves the column by one cell at most.
pub open spec fn wrapped(row: int, column: int) -> (int, int) {
    let carried = if column >= 53 {
        row + 1
    } else if column < 0 {
        row - 1
    } else {
        row
    };
    (carried % 30, column % 53)
}

impl Terminal {
    /// The cursor is on the grid.
    pub open spec fn wf(&self) -> bool {
        on_grid(self.row as int, self.column as int)
    }

    /// Whether `byte` ends a key: every byte does but an escape and the byte
    /// that follows one.
    pub open spec fn completes(&self, byte: u8) -> bool {
        match self.state {
            InputState::Normal => byte != ESC,
            InputState::EscapeSeen { skipped } => skipped,
        }
    }

    /// The glyph that `byte`, ending a key, leaves in the cursor's cell: the
    /// blank glyph for a control key, else the glyph that the byte selects.
    pub open spec fn stroke(&self, byte: u8) -> int {
        match self.state {
            InputState::Normal => if byte == CR || byte == DEL {
                0
            } else {
                byte as int % 32
            },
            InputState::EscapeSeen { .. } => 0,
        }
    }

    /// Where `byte`, ending a key, sends the cursor, before it is brought
    /// back onto the grid.
    pub open spec fn target(&self, byte: u8) -> (int, int) {
        let row = self.row as int;
        let column = self.column as int;
        match self.state {
            InputState::Normal => if byte == CR {
                (row + 1, 0)
            } else if byte == DEL {
                (row, column - 1)
            } else {
                (row, column + 1)
            },
            InputState::EscapeSeen { .. } => if byte == KEY_UP {
                (row - 1, column)
            } else if byte == KEY_DOWN {
                (row + 1, column)
            } else if byte == KEY_RIGHT {
                (row, column + 1)
            } else if byte == KEY_LEFT {
                (row, column - 1)
            } else {
                (row, column)
            },
        }
    }

    /// The terminal after `byte`.
    pub open spec fn after(&self, byte: u8) -> Terminal {
        if self.completes(byte) {
            let (row, column) = self.target(byte);
            Terminal {
                row: wrapped(row, column).0 as i16,
                column: wrapped(row, column).1 as i16,
                state: InputState::Normal,
            }
        } else {
            Terminal {
                row: self.row,
                column: self.column,
                state: InputState::EscapeSeen { skipped: self.state != InputState::Normal },
            }
        }
    }

    /// What `byte` makes the terminal draw: nothing in the middle of a key; at
    /// its end the stroke over the cursor's cell, then the cursor block on the
    /// cell that the cursor has moved to.
    pub open spec fn response(&self, font: Font, byte: u8) -> Seq<RegOp> {
        if self.completes(byte) {
            glyph_cell_ops(font, self.row as int, self.column as int, self.stroke(byte))
                + cursor_cell_ops(self.after(byte).row as int, self.after(byte).column as int)
        } else {
            Seq::empty()
        }
    }

    /// The terminal after the bytes of `input`, one after the other.
    pub open spec fn after_all(&self, input: Seq<u8>) -> Terminal
        decreases input.len(),
    {
        if input.len() == 0 {
            *self
        } else {
            self.after_all(input.drop_last()).after(input.last())
        }
    }

    /// What the bytes of `input`, one after the other, make the terminal draw.
    pub open spec fn response_all(&self, font: Font, input: Seq<u8>) -> Seq<RegOp>
        decreases input.len(),
    {
        if input.len() == 0 {
            Seq::empty()
        } else {
            self.response_all(font, input.drop_last()) + self.after_all(
                input.drop_last(),
            ).response(font, input.last())
        }
    }

    /// A terminal with its cursor in the top left cell.
    pub fn new() -> (terminal: Terminal)
        ensures
            terminal == (Terminal { row: 0, column: 0, state: InputState::Normal }),
            terminal.wf(),
    {
        Terminal { row: 0, column: 0, state: InputState::Normal }
    }

    /// Draws the cursor block on the cursor's cell.
    pub fn show_cursor(&self, out: &mut Vec<RegOp>)
        requires
            self.wf(),
        ensures
            final(out)@ == old(out)@ + cursor_cell_ops(self.row as int, self.column as int),
    {
        draw_cursor_at(out, self.row, self.column);
    }

    /// Takes one byte of input without drawing anything: moves the cursor and
    /// the state, and returns the glyph that belongs into the cell that the
    /// cursor stood on, if the byte ended a key.
    pub fn advance(&mut self, byte: u8) -> (stroke: Option<u8>)
        requires
            old(self).wf(),
        ensures
            *final(self) == old(self).after(byte),
            final(self).wf(),
            stroke is Some <==> old(self).completes(byte),
            stroke matches Some(glyph) ==> glyph == old(self).stroke(byte),
    {
        let mut row: i16 = self.row;
        let mut column: i16 = self.column;
        let mut glyph: u8 = 0;
        match self.state {
            InputState::Normal => {
                if byte == ESC {
                    self.state = InputState::EscapeSeen { skipped: false };
                    return None;
                } else if byte == CR {
                    row = row + 1;
                    column = 0;
                } else if byte == DEL {
                    column = column - 1;
                } else {
                    glyph = byte % 32;
                    column = column + 1;
                }
            },
            InputState::EscapeSeen { skipped } => {
                if !skipped {
                    self.state = InputState::EscapeSeen { skipped: true };
                    return None;
                }
                if byte == KEY_UP {
                    row = row - 1;
                } else if byte == KEY_DOWN {
                    row = row + 1;
                } else if byte == KEY_RIGHT {
                    column = column + 1;
                } else if byte == KEY_LEFT {
                    column = column - 1;
                }
            },
        }
        assert((row as int, column as int) == old(self).target(byte));
        if column >= 53 {
            row = row + 1;
        }
        if column < 0 {
            row = row - 1;
        }
        if row < 0 {
            row = row + 30;
        } else if row >= 30 {
            row = row - 30;
        }
        if column < 0 {
            column = column + 53;
        } else if column >= 53 {
            column = column - 53;
        }
        self.row = row;
        self.column = column;
        self.state = InputState::Normal;
        Some(glyph)
    }

    /// Takes one byte of input.
    ///
    /// A byte that ends a key overwrites the cursor block with the key's
    /// stroke, moves the cursor, and draws the cursor block on its new cell.
    /// An escape and the byte after it only advance the state.
    pub fn receive(&mut self, out: &mut Vec<RegOp>, font: &Font, byte: u8)
        requires
            old(self).wf(),
        ensures
            *final(self) == old(self).after(byte),
            final(self).wf(),
            final(out)@ == old(out)@ + old(self).response(*font, byte),
    {
        let row = self.row;
        let column = self.column;
        match self.advance(byte) {
            Some(glyph) => {
                draw_char_at(out, font, row, column, glyph);
                draw_cursor_at(out, self.row, self.column);
                assert(out@ =~= old(out)@ + old(self).response(*font, byte));
            },
            None => {
                assert(out@ =~= old(out)@ + old(self).response(*font, byte));
            },
        }
    }
}

/// Feeds the terminal the bytes of `input` in order and queues what they draw.
pub fn echo_characters_on_screen(
    out: &mut Vec<RegOp>,
    font: &Font,
    terminal: &mut Terminal,
    input: &[u8],
)
    requires
        old(terminal).wf(),
    ensures
        *final(terminal) == old(terminal).after_all(input@),
        final(terminal).wf(),
        final(out)@ == old(out)@ + old(terminal).response_all(*font, input@),
{
    let ghost start = *terminal;
    let ghost before = out@;
    let mut i: usize = 0;
    assert(before + start.response_all(*font, input@.take(0)) =~= before);
    while i < input.len()
        invariant
            i <= input.len(),
            terminal.wf(),
            *terminal == start.after_all(input@.take(i as int)),
            out@ == before + start.response_all(*font, input@.take(i as int)),
        decreases input.len() - i,
    {
        let ghost longer = input@.take(i + 1);
        assert(longer.drop_last() =~= input@.take(i as int));
        terminal.receive(out, font, input[i]);
        assert(out@ =~= before + start.response_all(*font, longer));
        i = i + 1;
    }
    assert(input@.take(input@.len() as int) =~= input@);
}

/// Whatever byte arrives, a cursor on the grid stays on the grid.
pub proof fn lemma_cursor_stays_on_grid(terminal: Terminal, byte: u8)
    requires
        terminal.wf(),
    ensures
        terminal.after(byte).wf(),
{
}

/// Whatever bytes arrive, a cursor on the grid stays on the grid.
pub proof fn lemma_cursor_stays_on_grid_all(terminal: Terminal, input: Seq<u8>)
    requires
        terminal.wf(),
    ensures
        terminal.after_all(input).wf(),
    decreases input.len(),
{
    if input.len() > 0 {
        lemma_cursor_stays_on_grid_all(terminal, input.drop_last());
        lemma_cursor_stays_on_grid(terminal.after_all(input.drop_last()), input.last());
    }
}

/// A key never sends the cursor further than one column past either end of
/// its row, or one row past the top or the bottom.
pub proof fn lemma_target_is_one_step_away(terminal: Terminal, byte: u8)
    requires
        terminal.wf(),
    ensures
        -1 <= terminal.target(byte).0 <= 30,
        -1 <= terminal.target(byte).1 <= 53,
{
}

/// For a cursor that has left its row by one column at most, the single
/// carry is the whole carry: counted in reading order, cell by cell and row
/// by row around the grid, the cursor comes to rest on the cell that its
/// column and row add up to.
pub proof fn lemma_wrapped_follows_reading_order(row: int, column: int)
    requires
        -1 <= column <= 53,
    ensures
        0 <= wrapped(row, column).0 < 30,
        0 <= wrapped(row, column).1 < 53,
        53 * wrapped(row, column).0 + wrapped(row, column).1 == (53 * row + column) % 1590,
{
    let carried = if column >= 53 {
        row + 1
    } else if column < 0 {
        row - 1
    } else {
        row
    };
    let r = carried % 30;
    let c = column % 53;
    let q = carried / 30;
    assert(carried == 30 * q + r);
    assert(53 * carried + c == 53 * row + column);
    assert(53 * row + column == 1590 * q + (53 * r + c));
    assert(0 <= 53 * r + c < 1590);
    vstd::arithmetic::div_mod::lemma_fundamental_div_mod_converse(
        53 * row + column,
        1590,
        q,
        53 * r + c,
    );
}

/// Input may arrive in pieces: the terminal ends where it would have ended
/// had the pieces come as one, and has drawn the same.
pub proof fn lemma_input_in_pieces(terminal: Terminal, font: Font, first: Seq<u8>, second: Seq<u8>)
    ensures
        terminal.after_all(first + second) == terminal.after_all(first).after_all(second),
        terminal.response_all(font, first + second) == terminal.response_all(font, first)
            + terminal.after_all(first).response_all(font, second),
    decreases second.len(),
{
    if second.len() == 0 {
        assert(first + second =~= first);
        assert(terminal.response_all(font, first) + Seq::<RegOp>::empty()
            =~= terminal.response_all(font, first));
    } else {
        let shorter = second.drop_last();
        assert((first + second).drop_last() =~= first + shorter);
        assert((first + second).last() == second.last());
        lemma_input_in_pieces(terminal, font, first, shorter);
        let mid = terminal.after_all(first);
        assert(terminal.response_all(font, first) + mid.response_all(font, shorter)
            + mid.after_all(shorter).response(font, second.last()) =~= terminal.response_all(
            font,
            first,
        ) + (mid.response_all(font, shorter) + mid.after_all(shorter).response(
            font,
            second.last(),
        )));
    }
}

} // verus!
