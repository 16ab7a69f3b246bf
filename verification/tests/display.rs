use lcd_terminal::board::{lcd_set_up_spi, start_up, uart1_set_up};
use lcd_terminal::display::{
    draw_char_at, draw_cursor_at, draw_demo, draw_string_at, lcd_column_range, lcd_command,
    lcd_data, lcd_row_range, lcd_set_up_driver, LcdCommand,
};
use lcd_terminal::font::font;
use lcd_terminal::peripherals::RegOp;

const DC_LOW: RegOp = RegOp::Write32 { addr: 0x4002_0c18, value: 1 << 29 };
const DC_HIGH: RegOp = RegOp::Write32 { addr: 0x4002_0c18, value: 1 << 13 };
const CS_LOW: RegOp = RegOp::Write32 { addr: 0x4002_0818, value: 1 << 18 };
const CS_HIGH: RegOp = RegOp::Write32 { addr: 0x4002_0818, value: 1 << 2 };
const WAIT_ROOM: RegOp = RegOp::AwaitSet16 { addr: 0x4001_5008, mask: 1 << 1 };
const WAIT_IDLE: RegOp = RegOp::AwaitClear16 { addr: 0x4001_5008, mask: 1 << 7 };

fn send(byte: u8) -> RegOp {
    RegOp::Write16 { addr: 0x4001_500c, value: byte as u16 }
}

/// What the display controller sees: each byte with the state of the
/// command/data line while it was sent (`true` for data).
fn wire(ops: &[RegOp]) -> Vec<(bool, u8)> {
    let mut data = false;
    let mut seen = Vec::new();
    for op in ops {
        if *op == DC_HIGH {
            data = true;
        } else if *op == DC_LOW {
            data = false;
        } else if let RegOp::Write16 { addr: 0x4001_500c, value } = op {
            seen.push((data, *value as u8));
        }
    }
    seen
}

/// Splits what the controller sees for one cell into the window and the
/// pixel payload.
fn cell(seen: &[(bool, u8)]) -> ((u16, u16, u16, u16), Vec<u8>) {
    assert_eq!(seen.len(), 11 + 144);
    assert_eq!(seen[0], (false, 0x2a));
    assert_eq!(seen[5], (false, 0x2b));
    assert_eq!(seen[10], (false, 0x2c));
    for i in [1, 2, 3, 4, 6, 7, 8, 9] {
        assert!(seen[i].0);
    }
    let bound = |i: usize| (seen[i].1 as u16) << 8 | seen[i + 1].1 as u16;
    let payload: Vec<u8> = seen[11..]
        .iter()
        .map(|(data, byte)| {
            assert!(*data);
            *byte
        })
        .collect();
    ((bound(1), bound(3), bound(6), bound(8)), payload)
}

#[test]
fn command_is_flushed_and_framed_by_chip_select() {
    let mut out = Vec::new();
    lcd_command(&mut out, LcdCommand::MemoryWrite);
    assert_eq!(
        out,
        vec![
            WAIT_ROOM,
            WAIT_IDLE,
            DC_LOW,
            CS_LOW,
            WAIT_ROOM,
            send(0x2c),
            WAIT_ROOM,
            WAIT_IDLE,
            CS_HIGH,
        ]
    );
}

#[test]
fn data_byte_is_neither_flushed_nor_released() {
    let mut out = Vec::new();
    lcd_data(&mut out, 0xe0);
    assert_eq!(out, vec![DC_HIGH, CS_LOW, WAIT_ROOM, send(0xe0)]);
}

#[test]
fn opcodes() {
    assert_eq!(LcdCommand::ExitSleepMode.code(), 0x11);
    assert_eq!(LcdCommand::DisplayOn.code(), 0x29);
    assert_eq!(LcdCommand::ColumnAddressSet.code(), 0x2a);
    assert_eq!(LcdCommand::RowAddressSet.code(), 0x2b);
    assert_eq!(LcdCommand::MemoryWrite.code(), 0x2c);
    assert_eq!(LcdCommand::MemoryAccessControl.code(), 0x36);
}

#[test]
fn column_range_sends_two_big_endian_bounds() {
    let mut out = Vec::new();
    lcd_column_range(&mut out, 312, 317);
    assert_eq!(
        wire(&out),
        vec![(false, 0x2a), (true, 0x01), (true, 0x38), (true, 0x01), (true, 0x3d)]
    );
    let mut out = Vec::new();
    lcd_column_range(&mut out, 0xabcd, 0x00ff);
    assert_eq!(
        wire(&out),
        vec![(false, 0x2a), (true, 0xab), (true, 0xcd), (true, 0x00), (true, 0xff)]
    );
}

#[test]
fn row_range_sends_two_big_endian_bounds() {
    let mut out = Vec::new();
    lcd_row_range(&mut out, 232, 239);
    assert_eq!(
        wire(&out),
        vec![(false, 0x2b), (true, 0x00), (true, 0xe8), (true, 0x00), (true, 0xef)]
    );
    assert_eq!(out.len(), 9 + 4 * 4);
}

#[test]
fn set_up_driver_wakes_and_orients_the_panel() {
    let mut out = Vec::new();
    lcd_set_up_driver(&mut out);
    assert_eq!(wire(&out), vec![(false, 0x11), (false, 0x29), (false, 0x36), (true, 0xe0)]);
}

#[test]
fn drawn_glyph_reads_back_as_the_font_bitmap() {
    let table = font();
    for glyph in 0..32u8 {
        let mut out = Vec::new();
        draw_char_at(&mut out, &table, 3, 7, glyph);
        let (_, payload) = cell(&wire(&out));
        for row in 0..8 {
            for col in 0..6 {
                let pixel = 3 * (6 * row + col);
                let on = table[glyph as usize][col] & (1 << row) != 0;
                assert_eq!(payload[pixel], 0x00);
                assert_eq!(payload[pixel + 1], if on { 0xff } else { 0x00 });
                assert_eq!(payload[pixel + 2], 0x00);
            }
        }
    }
}

#[test]
fn drawn_letter_a_pixel_rows() {
    let mut out = Vec::new();
    draw_char_at(&mut out, &font(), 0, 0, 1);
    let (_, payload) = cell(&wire(&out));
    let greens: Vec<u8> = payload.chunks(3).map(|pixel| pixel[1]).collect();
    let row = |r: usize| greens[6 * r..6 * r + 6].to_vec();
    assert_eq!(row(0), vec![0, 0, 0xff, 0, 0, 0]);
    assert_eq!(row(1), vec![0, 0xff, 0, 0xff, 0, 0]);
    assert_eq!(row(4), vec![0xff, 0xff, 0xff, 0xff, 0xff, 0]);
    assert_eq!(row(7), vec![0; 6]);
}

#[test]
fn erased_cell_is_black() {
    let mut out = Vec::new();
    draw_char_at(&mut out, &font(), 29, 52, 0);
    let (_, payload) = cell(&wire(&out));
    assert_eq!(payload, vec![0u8; 144]);
}

#[test]
fn window_is_the_rectangle_of_the_cell() {
    let table = font();
    for row in 0..30i16 {
        for col in 0..53i16 {
            let mut out = Vec::new();
            draw_char_at(&mut out, &table, row, col, 5);
            let (window, _) = cell(&wire(&out));
            let (c, r) = (col as u16, row as u16);
            assert_eq!(window, (6 * c, 6 * c + 5, 8 * r, 8 * r + 7));
            let mut out = Vec::new();
            draw_cursor_at(&mut out, row, col);
            let (window, _) = cell(&wire(&out));
            assert_eq!(window, (6 * c, 6 * c + 5, 8 * r, 8 * r + 7));
        }
    }
}

#[test]
fn window_of_the_last_cell() {
    let mut out = Vec::new();
    draw_cursor_at(&mut out, 29, 52);
    let seen = wire(&out);
    assert_eq!(
        seen[..11].to_vec(),
        vec![
            (false, 0x2a),
            (true, 0x01),
            (true, 0x38),
            (true, 0x01),
            (true, 0x3d),
            (false, 0x2b),
            (true, 0x00),
            (true, 0xe8),
            (true, 0x00),
            (true, 0xef),
            (false, 0x2c),
        ]
    );
}

#[test]
fn cursor_is_solid_red() {
    let mut out = Vec::new();
    draw_cursor_at(&mut out, 0, 0);
    let (window, payload) = cell(&wire(&out));
    assert_eq!(window, (0, 5, 0, 7));
    assert_eq!(payload.len(), 144);
    for pixel in payload.chunks(3) {
        assert_eq!(pixel, [0x00, 0x00, 0xff]);
    }
}

#[test]
fn cell_keeps_chip_select_low_across_the_pixels() {
    let mut out = Vec::new();
    draw_cursor_at(&mut out, 1, 1);
    let start = out.len() - 144 * 4;
    assert_eq!(out[start - 1], CS_HIGH);
    for access in out[start..].chunks(4) {
        assert_eq!(access[..3].to_vec(), vec![DC_HIGH, CS_LOW, WAIT_ROOM]);
    }
    assert!(!out[start..].contains(&CS_HIGH));
    assert!(!out[start..].contains(&WAIT_IDLE));
}

#[test]
fn string_draws_one_cell_per_byte() {
    let table = font();
    let mut out = Vec::new();
    draw_string_at(&mut out, &table, 2, 50, "AZ ");
    let mut expected = Vec::new();
    draw_char_at(&mut expected, &table, 2, 50, 1);
    draw_char_at(&mut expected, &table, 2, 51, 26);
    draw_char_at(&mut expected, &table, 2, 52, 0);
    assert_eq!(out, expected);
}

#[test]
fn empty_string_draws_nothing() {
    let mut out = vec![DC_LOW];
    draw_string_at(&mut out, &font(), 29, 52, "");
    assert_eq!(out, vec![DC_LOW]);
}

#[test]
fn demo_is_the_greeting_in_the_middle_of_the_screen() {
    let table = font();
    let mut out = Vec::new();
    draw_demo(&mut out, &table);
    let mut expected = Vec::new();
    draw_string_at(&mut expected, &table, 14, 9, "PLEASE TYPE SOME STUFF ON THE UART");
    assert_eq!(out, expected);
    let seen = wire(&out);
    assert_eq!(seen.len(), 34 * 155);
    let (window, payload) = cell(&seen[..155]);
    assert_eq!(window, (54, 59, 112, 119));
    let (_, letter_p) = {
        let mut one = Vec::new();
        draw_char_at(&mut one, &table, 14, 9, 16);
        cell(&wire(&one))
    };
    assert_eq!(payload, letter_p);
}

#[test]
fn uart_set_up_routes_pins_and_sets_the_speed() {
    let mut out = Vec::new();
    uart1_set_up(&mut out);
    assert_eq!(
        out,
        vec![
            RegOp::Update32 { addr: 0x4002_0024, mask: 0x0000_00f0, value: 0x0000_0070 },
            RegOp::Update32 { addr: 0x4002_0024, mask: 0x0000_0f00, value: 0x0000_0700 },
            RegOp::Update32 { addr: 0x4002_0000, mask: 0x000c_0000, value: 0x0008_0000 },
            RegOp::Update32 { addr: 0x4002_0000, mask: 0x0030_0000, value: 0x0020_0000 },
            RegOp::Write16 { addr: 0x4001_1008, value: 1666 },
            RegOp::Update16 { addr: 0x4001_100c, mask: 0x200c, value: 0x200c },
        ]
    );
}

#[test]
fn spi_set_up_routes_pins_and_enables_the_port() {
    let mut out = Vec::new();
    lcd_set_up_spi(&mut out);
    assert_eq!(
        out,
        vec![
            RegOp::Update32 { addr: 0x4002_1420, mask: 0xf000_0000, value: 0x5000_0000 },
            RegOp::Update32 { addr: 0x4002_1424, mask: 0x0000_00f0, value: 0x0000_0050 },
            RegOp::Update32 { addr: 0x4002_1400, mask: 0x0000_c000, value: 0x0000_8000 },
            RegOp::Update32 { addr: 0x4002_1400, mask: 0x000c_0000, value: 0x0008_0000 },
            RegOp::Update32 { addr: 0x4002_0c00, mask: 0x0c00_0000, value: 0x0400_0000 },
            RegOp::Update32 { addr: 0x4002_0800, mask: 0x0000_0030, value: 0x0000_0010 },
            CS_HIGH,
            RegOp::Update16 { addr: 0x4001_5000, mask: 0x0038, value: 0x0000 },
            RegOp::Update16 { addr: 0x4001_5000, mask: 0x0344, value: 0x0344 },
        ]
    );
}

#[test]
fn start_up_runs_from_the_clocks_to_the_greeting() {
    let table = font();
    let mut out = Vec::new();
    start_up(&mut out, &table);
    assert_eq!(out[0], RegOp::Update32 { addr: 0x4002_3830, mask: 1, value: 1 });
    assert_eq!(out[7], RegOp::Update32 { addr: 0x4002_1800, mask: 0x0c00_0000, value: 0x0400_0000 });
    assert_eq!(out[8], RegOp::Write32 { addr: 0x4002_1800 + 0x18, value: 1 << 13 });
    let mut uart = Vec::new();
    uart1_set_up(&mut uart);
    assert_eq!(out[9..15].to_vec(), uart);
    let dots = &out[15..15 + 64];
    for pair in dots.chunks(2) {
        assert_eq!(
            pair.to_vec(),
            vec![
                RegOp::AwaitSet16 { addr: 0x4001_1000, mask: 0x0080 },
                RegOp::Write16 { addr: 0x4001_1004, value: b'.' as u16 },
            ]
        );
    }
    let mut rest = Vec::new();
    lcd_set_up_spi(&mut rest);
    lcd_set_up_driver(&mut rest);
    draw_demo(&mut rest, &table);
    assert_eq!(out[15 + 64..].to_vec(), rest);
}
