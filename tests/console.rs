use kernel_core::port::PortWrite;
use kernel_core::vga::{
    Buffer, Color, ColorCode, ScreenChar, Writer, BUFFER_HEIGHT, BUFFER_WIDTH,
};

fn glyph(b: u8) -> ScreenChar {
    ScreenChar { ascii_character: b, color_code: ColorCode::default() }
}

fn snapshot(w: &Writer) -> Vec<ScreenChar> {
    let mut cells = Vec::new();
    for r in 0..BUFFER_HEIGHT {
        for c in 0..BUFFER_WIDTH {
            cells.push(w.cell(r, c));
        }
    }
    cells
}

#[test]
fn new_writer_is_blank_at_home() {
    let w = Writer::new();
    assert_eq!((w.row(), w.column()), (0, 0));
    assert!(snapshot(&w).iter().all(|c| *c == glyph(b' ')));
}

#[test]
fn color_codes_pack_background_high() {
    assert_eq!(ColorCode::new(Color::White, Color::Blue).0, 0x1F);
    assert_eq!(ColorCode::new(Color::Black, Color::Yellow).0, 0xE0);
    assert_eq!(ColorCode::default().0, 0x09);
    assert_eq!(Color::Pink.to_u8(), 13);
    assert_eq!(ScreenChar::default(), glyph(b' '));
}

#[test]
fn blank_buffer_has_default_cells() {
    let b = Buffer::new();
    assert_eq!(b.cell(0, 0), glyph(b' '));
    assert_eq!(b.cell(BUFFER_HEIGHT - 1, BUFFER_WIDTH - 1), glyph(b' '));
}

#[test]
fn printable_byte_is_stored_at_cursor() {
    let mut w = Writer::new();
    w.write_string("ab");
    for b in 0x20u8..=0x7E {
        let (r, c) = (w.row(), w.column());
        w.write_byte(b);
        if c < BUFFER_WIDTH {
            assert_eq!(w.cell(r, c), glyph(b));
        }
        assert_eq!(w.cell(w.row(), w.column() - 1), glyph(b));
    }
}

#[test]
fn unprintable_byte_acts_as_star() {
    for b in [0x00u8, 0x07, 0x09, 0x0D, 0x1F, 0x7F, 0x80, 0xFF] {
        let mut a = Writer::new();
        let mut s = Writer::new();
        a.write_string("x");
        s.write_string("x");
        a.write_byte(b);
        s.write_byte(b'*');
        assert_eq!(snapshot(&a), snapshot(&s));
        assert_eq!((a.row(), a.column()), (s.row(), s.column()));
        assert_eq!(a.take_port_writes(), s.take_port_writes());
        assert_eq!(a.cell(0, 1), glyph(b'*'));
    }
}

#[test]
fn non_ascii_text_is_written_byte_by_byte() {
    let mut w = Writer::new();
    w.write_string("é!");
    assert_eq!(w.cell(0, 0), glyph(b'*'));
    assert_eq!(w.cell(0, 1), glyph(b'*'));
    assert_eq!(w.cell(0, 2), glyph(b'!'));
    assert_eq!(w.column(), 3);
}

#[test]
fn full_row_then_wrap() {
    let mut w = Writer::new();
    let row: String = std::iter::repeat('x').take(BUFFER_WIDTH).collect();
    w.write_string(&row);
    assert_eq!((w.row(), w.column()), (0, BUFFER_WIDTH));
    w.write_byte(b'y');
    assert_eq!((w.row(), w.column()), (1, 1));
    assert_eq!(w.cell(1, 0), glyph(b'y'));
    assert_eq!(w.cell(0, BUFFER_WIDTH - 1), glyph(b'x'));
}

#[test]
fn newline_on_last_row_scrolls() {
    let mut w = Writer::new();
    for r in 0..BUFFER_HEIGHT {
        w.write_byte(b'A' + r as u8);
        w.write_byte(b'a' + (r % 26) as u8);
        if r + 1 < BUFFER_HEIGHT {
            w.write_byte(b'\n');
        }
    }
    assert_eq!(w.row(), BUFFER_HEIGHT - 1);
    let before = snapshot(&w);
    w.write_byte(b'\n');
    assert_eq!((w.row(), w.column()), (BUFFER_HEIGHT - 1, 0));
    for r in 0..BUFFER_HEIGHT - 1 {
        for c in 0..BUFFER_WIDTH {
            assert_eq!(w.cell(r, c), before[(r + 1) * BUFFER_WIDTH + c]);
        }
    }
    for c in 0..BUFFER_WIDTH {
        assert_eq!(w.cell(BUFFER_HEIGHT - 1, c), glyph(b' '));
    }
    assert_eq!(w.cell(0, 0), glyph(b'B'));
}

#[test]
fn wrap_on_last_row_scrolls() {
    let mut w = Writer::new();
    for _ in 0..BUFFER_HEIGHT - 1 {
        w.write_byte(b'\n');
    }
    let row: String = std::iter::repeat('z').take(BUFFER_WIDTH).collect();
    w.write_string(&row);
    w.write_byte(b'q');
    assert_eq!((w.row(), w.column()), (BUFFER_HEIGHT - 1, 1));
    assert_eq!(w.cell(BUFFER_HEIGHT - 2, 5), glyph(b'z'));
    assert_eq!(w.cell(BUFFER_HEIGHT - 1, 0), glyph(b'q'));
    assert_eq!(w.cell(BUFFER_HEIGHT - 1, 1), glyph(b' '));
}

#[test]
fn clear_screen_is_idempotent() {
    let mut w = Writer::new();
    w.write_string("hello\nworld");
    w.clear_screen();
    let once = snapshot(&w);
    assert_eq!((w.row(), w.column()), (0, 0));
    assert!(once.iter().all(|c| *c == glyph(b' ')));
    w.clear_screen();
    assert_eq!(snapshot(&w), once);
    assert_eq!((w.row(), w.column()), (0, 0));
}

#[test]
fn delete_twice_after_trailing_space() {
    let mut w = Writer::new();
    w.write_string("AB ");
    w.delete_byte();
    w.delete_byte();
    assert_eq!((w.row(), w.column()), (0, 1));
    assert_eq!(w.cell(0, 0), glyph(b'A'));
    assert_eq!(w.cell(0, 1), glyph(b' '));
}

#[test]
fn delete_at_line_start_returns_past_last_text() {
    let mut w = Writer::new();
    w.write_string("abc\n");
    w.delete_byte();
    assert_eq!((w.row(), w.column()), (0, 3));
    assert_eq!(w.cell(0, 2), glyph(b'c'));
}

#[test]
fn delete_skips_blank_lines() {
    let mut w = Writer::new();
    w.write_string("ab\n\n");
    assert_eq!((w.row(), w.column()), (2, 0));
    w.delete_byte();
    assert_eq!((w.row(), w.column()), (0, 2));
}

#[test]
fn delete_with_nothing_above_goes_home() {
    let mut w = Writer::new();
    w.write_string("\n\n");
    w.delete_byte();
    assert_eq!((w.row(), w.column()), (0, 0));
    w.delete_byte();
    assert_eq!((w.row(), w.column()), (0, 0));
}

#[test]
fn cursor_registers_get_low_then_high_byte() {
    let mut w = Writer::new();
    w.write_byte(b'A');
    let expected = vec![
        PortWrite { port: 0x3D4, value: 0x0F },
        PortWrite { port: 0x3D5, value: 1 },
        PortWrite { port: 0x3D4, value: 0x0E },
        PortWrite { port: 0x3D5, value: 0 },
    ];
    assert_eq!(w.take_port_writes(), expected);
    assert!(w.take_port_writes().is_empty());
    w.write_string("\n\n\n\n");
    let writes = w.take_port_writes();
    assert_eq!(writes.len(), 16);
    assert_eq!(writes[13], PortWrite { port: 0x3D5, value: 64 });
    assert_eq!(writes[15], PortWrite { port: 0x3D5, value: 1 });
}

#[test]
fn delete_and_clear_move_hardware_cursor() {
    let mut w = Writer::new();
    w.write_string("xy");
    w.take_port_writes();
    w.delete_byte();
    let writes = w.take_port_writes();
    assert_eq!(writes[1], PortWrite { port: 0x3D5, value: 1 });
    w.clear_screen();
    let writes = w.take_port_writes();
    assert_eq!(writes.len(), 4);
    assert_eq!(writes[1], PortWrite { port: 0x3D5, value: 0 });
}

#[test]
fn delete_after_full_row_returns_past_last_column() {
    let mut w = Writer::new();
    let row: String = std::iter::repeat('x').take(BUFFER_WIDTH).collect();
    w.write_string(&row);
    w.write_byte(b'\n');
    w.delete_byte();
    assert_eq!((w.row(), w.column()), (0, BUFFER_WIDTH));
    w.delete_byte();
    assert_eq!((w.row(), w.column()), (0, BUFFER_WIDTH - 1));
    assert_eq!(w.cell(0, BUFFER_WIDTH - 1), glyph(b' '));
}

#[test]
fn delete_finds_text_in_last_column_alone() {
    let mut w = Writer::new();
    let row: String = std::iter::repeat(' ').take(BUFFER_WIDTH - 1).collect();
    w.write_string(&row);
    w.write_string("x\n");
    assert_eq!((w.row(), w.column()), (1, 0));
    w.delete_byte();
    assert_eq!((w.row(), w.column()), (0, BUFFER_WIDTH));
}
