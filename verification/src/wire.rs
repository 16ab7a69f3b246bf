//! The display's side of the wire: what the controller sees of a queue of
//! register accesses.

use crate::display::{
    burst_ops, cell_window_ops, column_range_ops, command_ops, cursor_cell_ops, cursor_pixels,
    data_ops, glyph_cell_ops, glyph_pixels, on_grid, range_bytes, row_range_ops, LcdCommand,
};
use crate::display::{CS_PIN, DC_PIN};
use crate::font::Font;
use crate::peripherals::{RegOp, GPIOC_BASE, GPIOD_BASE, GPIO_BSRR, SPI5_BASE, SPI_DR, SPI_SR};
use crate::peripherals::{SPI_SR_BSY, SPI_SR_TXE};
use vstd::prelude::*;

verus! {

/// One byte as the controller receives it: the byte, and whether the
/// command/data line said data while it was sent.
pub struct WireByte {
    pub data: bool,
    pub byte: u8,
}

/// The access that drives the command/data line high.
pub open spec fn select_data_op() -> RegOp {
    RegOp::Write32 { addr: (GPIOD_BASE + GPIO_BSRR) as u32, value: 0x0000_2000 }
}

/// The access that drives the command/data line low.
pub open spec fn select_command_op() -> RegOp {
    RegOp::Write32 { addr: (GPIOD_BASE + GPIO_BSRR) as u32, value: 0x2000_0000 }
}

/// Whether `op` hands a byte to the SPI port.
pub open spec fn sends(op: RegOp) -> bool {
    op matches RegOp::Write16 { addr, .. } && addr == SPI5_BASE + SPI_DR
}

/// The byte that an access which `sends` hands over.
pub open spec fn sent_byte(op: RegOp) -> u8 {
    match op {
        RegOp::Write16 { value, .. } => (value % 256) as u8,
        _ => 0,
    }
}

/// The state of the command/data line after `ops`, when it said `initial`
/// before them: `true` for data.
pub open spec fn data_mode(ops: Seq<RegOp>, initial: bool) -> bool
    decreases ops.len(),
{
    if ops.len() == 0 {
        initial
    } else if ops.last() == select_data_op() {
        true
    } else if ops.last() == select_command_op() {
        false
    } else {
        data_mode(ops.drop_last(), initial)
    }
}

/// What the controller sees of `ops`, when the command/data line said
/// `initial` before them.
pub open spec fn seen(ops: Seq<RegOp>, initial: bool) -> Seq<WireByte>
    decreases ops.len(),
{
    if ops.len() == 0 {
        Seq::empty()
    } else if sends(ops.last()) {
        seen(ops.drop_last(), initial).push(
            WireByte { data: data_mode(ops.drop_last(), initial), byte: sent_byte(ops.last()) },
        )
    } else {
        seen(ops.drop_last(), initial)
    }
}

/// An opcode as the controller sees it.
pub open spec fn opcode_seen(cmd: LcdCommand) -> Seq<WireByte> {
    seq![WireByte { data: false, byte: cmd.opcode() }]
}

/// Data bytes as the controller sees them.
pub open spec fn payload_seen(bytes: Seq<u8>) -> Seq<WireByte> {
    Seq::new(bytes.len(), |i: int| WireByte { data: true, byte: bytes[i] })
}

/// A cell as the controller sees it: the column range, the row range, the
/// start of the memory write, the pixels.
pub open spec fn cell_seen(row: int, column: int, pixels: Seq<u8>) -> Seq<WireByte> {
    opcode_seen(LcdCommand::ColumnAddressSet) + payload_seen(
        range_bytes((6 * column) as u16, (6 * column + 5) as u16),
    ) + opcode_seen(LcdCommand::RowAddressSet) + payload_seen(
        range_bytes((8 * row) as u16, (8 * row + 7) as u16),
    ) + opcode_seen(LcdCommand::MemoryWrite) + payload_seen(pixels)
}

/// The controller sees two queues one after the other as it sees each, the
/// second from the line state that the first leaves.
pub proof fn lemma_seen_concat(first: Seq<RegOp>, second: Seq<RegOp>, initial: bool)
    ensures
        data_mode(first + second, initial) == data_mode(second, data_mode(first, initial)),
        seen(first + second, initial) == seen(first, initial) + seen(
            second,
            data_mode(first, initial),
        ),
    decreases second.len(),
{
    if second.len() == 0 {
        assert(first + second =~= first);
        assert(seen(first, initial) + Seq::<WireByte>::empty() =~= seen(first, initial));
    } else {
        let shorter = second.drop_last();
        assert((first + second).drop_last() =~= first + shorter);
        assert((first + second).last() == second.last());
        lemma_seen_concat(first, shorter, initial);
        let mid = data_mode(first, initial);
        if sends(second.last()) {
            let byte = WireByte { data: data_mode(shorter, mid), byte: sent_byte(second.last()) };
            assert((seen(first, initial) + seen(shorter, mid)).push(byte) =~= seen(first, initial)
                + seen(shorter, mid).push(byte));
        }
    }
}

proof fn lemma_seen_push(ops: Seq<RegOp>, op: RegOp, initial: bool)
    ensures
        data_mode(ops.push(op), initial) == if op == select_data_op() {
            true
        } else if op == select_command_op() {
            false
        } else {
            data_mode(ops, initial)
        },
        seen(ops.push(op), initial) == if sends(op) {
            seen(ops, initial).push(WireByte { data: data_mode(ops, initial), byte: sent_byte(op) })
        } else {
            seen(ops, initial)
        },
{
    assert(ops.push(op).drop_last() =~= ops);
    assert(ops.push(op).last() == op);
}

proof fn lemma_line_bits()
    ensures
        1u32 << (DC_PIN as u32) == 0x0000_2000,
        1u32 << ((DC_PIN + 16) as u32) == 0x2000_0000,
        1u32 << (CS_PIN as u32) == 0x0000_0004,
        1u32 << ((CS_PIN + 16) as u32) == 0x0004_0000,
{
    assert(1u32 << 13u32 == 0x0000_2000) by (bit_vector);
    assert(1u32 << 29u32 == 0x2000_0000) by (bit_vector);
    assert(1u32 << 2u32 == 0x0000_0004) by (bit_vector);
    assert(1u32 << 18u32 == 0x0004_0000) by (bit_vector);
}

/// Of a command the controller sees the opcode, marked as a command, and the
/// line is left saying command.
pub proof fn lemma_command_seen(cmd: LcdCommand, initial: bool)
    ensures
        seen(command_ops(cmd), initial) == opcode_seen(cmd),
        !data_mode(command_ops(cmd), initial),
{
    lemma_line_bits();
    let sr = (SPI5_BASE + SPI_SR) as u32;
    let dr = (SPI5_BASE + SPI_DR) as u32;
    let room = RegOp::AwaitSet16 { addr: sr, mask: SPI_SR_TXE };
    let idle = RegOp::AwaitClear16 { addr: sr, mask: SPI_SR_BSY };
    let cs_low = RegOp::Write32 { addr: (GPIOC_BASE + GPIO_BSRR) as u32, value: 0x0004_0000 };
    let cs_high = RegOp::Write32 { addr: (GPIOC_BASE + GPIO_BSRR) as u32, value: 0x0000_0004 };
    let send = RegOp::Write16 { addr: dr, value: cmd.opcode() as u16 };
    let s0 = Seq::<RegOp>::empty();
    let s1 = s0.push(room);
    let s2 = s1.push(idle);
    let s3 = s2.push(select_command_op());
    let s4 = s3.push(cs_low);
    let s5 = s4.push(room);
    let s6 = s5.push(send);
    let s7 = s6.push(room);
    let s8 = s7.push(idle);
    let s9 = s8.push(cs_high);
    assert(command_ops(cmd) =~= s9);
    lemma_seen_push(s0, room, initial);
    lemma_seen_push(s1, idle, initial);
    lemma_seen_push(s2, select_command_op(), initial);
    lemma_seen_push(s3, cs_low, initial);
    lemma_seen_push(s4, room, initial);
    lemma_seen_push(s5, send, initial);
    lemma_seen_push(s6, room, initial);
    lemma_seen_push(s7, idle, initial);
    lemma_seen_push(s8, cs_high, initial);
    assert(seen(s9, initial) =~= opcode_seen(cmd));
}

/// Of a data byte the controller sees the byte, marked as data, and the line
/// is left saying data.
pub proof fn lemma_data_seen(data: u8, initial: bool)
    ensures
        seen(data_ops(data), initial) == payload_seen(seq![data]),
        data_mode(data_ops(data), initial),
{
    lemma_line_bits();
    let sr = (SPI5_BASE + SPI_SR) as u32;
    let dr = (SPI5_BASE + SPI_DR) as u32;
    let room = RegOp::AwaitSet16 { addr: sr, mask: SPI_SR_TXE };
    let cs_low = RegOp::Write32 { addr: (GPIOC_BASE + GPIO_BSRR) as u32, value: 0x0004_0000 };
    let send = RegOp::Write16 { addr: dr, value: data as u16 };
    let s0 = Seq::<RegOp>::empty();
    let s1 = s0.push(select_data_op());
    let s2 = s1.push(cs_low);
    let s3 = s2.push(room);
    let s4 = s3.push(send);
    assert(data_ops(data) =~= s4);
    lemma_seen_push(s0, select_data_op(), initial);
    lemma_seen_push(s1, cs_low, initial);
    lemma_seen_push(s2, room, initial);
    lemma_seen_push(s3, send, initial);
    assert(seen(s4, initial) =~= payload_seen(seq![data]));
}

/// Of a burst the controller sees every byte in order, marked as data.
pub proof fn lemma_burst_seen(bytes: Seq<u8>, initial: bool)
    ensures
        seen(burst_ops(bytes), initial) == payload_seen(bytes),
        data_mode(burst_ops(bytes), initial) == (initial || bytes.len() > 0),
    decreases bytes.len(),
{
    if bytes.len() == 0 {
        assert(seen(burst_ops(bytes), initial) =~= payload_seen(bytes));
    } else {
        let shorter = bytes.drop_last();
        lemma_burst_seen(shorter, initial);
        lemma_seen_concat(burst_ops(shorter), data_ops(bytes.last()), initial);
        lemma_data_seen(bytes.last(), data_mode(burst_ops(shorter), initial));
        assert(payload_seen(shorter) + payload_seen(seq![bytes.last()]) =~= payload_seen(bytes));
    }
}

/// Of a command followed by a burst the controller sees the opcode and then
/// the bytes, and the line is left saying data if there were any.
proof fn lemma_command_burst_seen(cmd: LcdCommand, bytes: Seq<u8>, initial: bool)
    ensures
        seen(command_ops(cmd) + burst_ops(bytes), initial) == opcode_seen(cmd) + payload_seen(
            bytes,
        ),
        data_mode(command_ops(cmd) + burst_ops(bytes), initial) == (bytes.len() > 0),
{
    lemma_command_seen(cmd, initial);
    lemma_burst_seen(bytes, false);
    lemma_seen_concat(command_ops(cmd), burst_ops(bytes), initial);
}

proof fn lemma_cell_seen(row: int, column: int, pixels: Seq<u8>, initial: bool)
    requires
        on_grid(row, column),
    ensures
        seen(cell_window_ops(row, column) + burst_ops(pixels), initial) == cell_seen(
            row,
            column,
            pixels,
        ),
{
    let columns = range_bytes((6 * column) as u16, (6 * column + 5) as u16);
    let rows = range_bytes((8 * row) as u16, (8 * row + 7) as u16);
    let a = column_range_ops((6 * column) as u16, (6 * column + 5) as u16);
    let b = row_range_ops((8 * row) as u16, (8 * row + 7) as u16);
    let c = command_ops(LcdCommand::MemoryWrite) + burst_ops(pixels);
    lemma_command_burst_seen(LcdCommand::ColumnAddressSet, columns, initial);
    lemma_command_burst_seen(LcdCommand::RowAddressSet, rows, true);
    lemma_command_burst_seen(LcdCommand::MemoryWrite, pixels, true);
    lemma_seen_concat(a, b, initial);
    lemma_seen_concat(a + b, c, initial);
    assert(cell_window_ops(row, column) + burst_ops(pixels) =~= (a + b) + c);
    assert(seen((a + b) + c, initial) =~= cell_seen(row, column, pixels));
}

/// Read back on the controller's side, a drawn glyph is the window of its
/// cell followed by the glyph's pixels, whatever the line said before.
pub proof fn lemma_glyph_cell_seen(font: Font, row: int, column: int, glyph: int, initial: bool)
    requires
        on_grid(row, column),
    ensures
        seen(glyph_cell_ops(font, row, column, glyph), initial) == cell_seen(
            row,
            column,
            glyph_pixels(font, glyph),
        ),
{
    reveal(glyph_cell_ops);
    lemma_cell_seen(row, column, glyph_pixels(font, glyph), initial);
}

/// Read back on the controller's side, a drawn cursor is the window of its
/// cell followed by forty-eight red pixels, whatever the line said before.
pub proof fn lemma_cursor_cell_seen(row: int, column: int, initial: bool)
    requires
        on_grid(row, column),
    ensures
        seen(cursor_cell_ops(row, column), initial) == cell_seen(row, column, cursor_pixels()),
{
    reveal(cursor_cell_ops);
    lemma_cell_seen(row, column, cursor_pixels(), initial);
}

} // verus!
