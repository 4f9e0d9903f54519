use crate::port::{PortLog, PortWrite};
use vstd::string::StringSliceAdditionalSpecFns;
use vstd::prelude::*;

verus! {

pub const BUFFER_HEIGHT: usize = 25;
pub const BUFFER_WIDTH: usize = 80;
/// Number of cells in the text buffer.
pub const BUFFER_CELLS: usize = 2000;
pub const BUFFER_CMD_PORT: u16 = 0x3D4;
pub const BUFFER_DATA_PORT: u16 = 0x3D5;
pub const CURSOR_LOW: u8 = 0x0F;
pub const CURSOR_HIGH: u8 = 0x0E;
pub const NEWLINE: u8 = 0x0A;
pub const BLANK: u8 = 0x20;
/// Glyph stored in place of any byte that is neither printable nor a newline.
pub const UNPRINTABLE: u8 = 0x2A;

/// The sixteen VGA text-mode colors, in hardware order.
#[derive(Clone, Copy, Debug, PartialEq, Eq, Structural)]
pub enum Color {
    Black,
    Blue,
    Green,
    Cyan,
    Red,
    Magenta,
    Brown,
    LightGray,
    DarkGray,
    LightBlue,
    LightGreen,
    LightCyan,
    LightRed,
    Pink,
    Yellow,
    White,
}

impl Color {
    /// The 4-bit hardware number of the color.
    pub open spec fn number(self) -> u8 {
        match self {
            Color::Black => 0,
            Color::Blue => 1,
            Color::Green => 2,
            Color::Cyan => 3,
            Color::Red => 4,
            Color::Magenta => 5,
            Color::Brown => 6,
            Color::LightGray => 7,
            Color::DarkGray => 8,
            Color::LightBlue => 9,
            Color::LightGreen => 10,
            Color::LightCyan => 11,
            Color::LightRed => 12,
            Color::Pink => 13,
            Color::Yellow => 14,
            Color::White => 15,
        }
    }

    /// Returns the 4-bit hardware number of the color.
    pub fn to_u8(self) -> (r: u8)
        ensures
            r == self.number(),
            r < 16,
    {
        match self {
            Color::Black => 0,
            Color::Blue => 1,
            Color::Green => 2,
            Color::Cyan => 3,
            Color::Red => 4,
            Color::Magenta => 5,
            Color::Brown => 6,
            Color::LightGray => 7,
            Color::DarkGray => 8,
            Color::LightBlue => 9,
            Color::LightGreen => 10,
            Color::LightCyan => 11,
            Color::LightRed => 12,
            Color::Pink => 13,
            Color::Yellow => 14,
            Color::White => 15,
        }
    }
}

/// A packed attribute byte: background in the high nibble, foreground in the low one.
#[derive(Clone, Copy, Debug, PartialEq, Eq, Structural)]
pub struct ColorCode(pub u8);

impl ColorCode {
    /// Packs a foreground and a background color.
    pub fn new(foreground: Color, background: Color) -> (r: ColorCode)
        ensures
            r.0 == background.number() * 16 + foreground.number(),
    {
        let f = foreground.to_u8();
        let b = background.to_u8();
        assert((b << 4u8) | f == b * 16 + f) by (bit_vector)
            requires
                f < 16,
                b < 16,
        ;
        ColorCode((b << 4u8) | f)
    }

    /// Light blue text on a black background.
    pub fn default() -> (r: ColorCode)
        ensures
            r == default_color(),
    {
        ColorCode::new(Color::LightBlue, Color::Black)
    }
}

/// The console's default attribute: light blue on black.
pub open spec fn default_color() -> ColorCode {
    ColorCode((Color::Black.number() * 16 + Color::LightBlue.number()) as u8)
}

/// One cell of the text buffer: a character and its attribute byte.
#[derive(Clone, Copy, Debug, PartialEq, Eq, Structural)]
pub struct ScreenChar {
    pub ascii_character: u8,
    pub color_code: ColorCode,
}

impl ScreenChar {
    /// A blank in the default color.
    pub fn default() -> (r: ScreenChar)
        ensures
            r == blank_cell(default_color()),
    {
        ScreenChar { ascii_character: BLANK, color_code: ColorCode::default() }
    }
}

/// A blank cell in the given color.
pub open spec fn blank_cell(color: ColorCode) -> ScreenChar {
    ScreenChar { ascii_character: BLANK, color_code: color }
}

/// Bytes the console shows as they are: printable ASCII.
pub open spec fn is_printable(b: u8) -> bool {
    0x20 <= b <= 0x7E
}

/// Index of the cell at `row`, `col` in the row-major grid.
pub open spec fn cell_index(row: int, col: int) -> int {
    row * BUFFER_WIDTH + col
}

/// The four port writes that place the hardware cursor at `row`, `col`:
/// select the low register, send the low byte, select the high register,
/// send the high byte.
pub open spec fn cursor_writes(row: int, col: int) -> Seq<PortWrite> {
    let pos = cell_index(row, col);
    seq![
        PortWrite { port: BUFFER_CMD_PORT, value: CURSOR_LOW },
        PortWrite { port: BUFFER_DATA_PORT, value: (pos % 256) as u8 },
        PortWrite { port: BUFFER_CMD_PORT, value: CURSOR_HIGH },
        PortWrite { port: BUFFER_DATA_PORT, value: (pos / 256) as u8 },
    ]
}

/// The grid after scrolling up one line: row 0 is gone, every other row
/// moves up by one and the last row is blank in `color`.
pub open spec fn scrolled(cells: Seq<ScreenChar>, color: ColorCode) -> Seq<ScreenChar> {
    Seq::new(
        BUFFER_CELLS as nat,
        |i: int|
            if i < BUFFER_CELLS - BUFFER_WIDTH {
                cells[i + BUFFER_WIDTH]
            } else {
                blank_cell(color)
            },
    )
}

/// A grid of blanks in `color`.
pub open spec fn blank_grid(color: ColorCode) -> Seq<ScreenChar> {
    Seq::new(BUFFER_CELLS as nat, |i: int| blank_cell(color))
}

/// A cell that the backward search of `delete_byte` stops at: one that is
/// not blank.
pub open spec fn is_mark(cells: Seq<ScreenChar>, k: int) -> bool {
    cells[k].ascii_character != BLANK
}

/// Index of the last mark among the first `k` cells, or -1 if there is none.
pub open spec fn last_mark_before(cells: Seq<ScreenChar>, k: int) -> int
    decreases k,
{
    if k <= 0 {
        -1
    } else if is_mark(cells, k - 1) {
        k - 1
    } else {
        last_mark_before(cells, k - 1)
    }
}

/// The 80x25 text grid, row-major.
pub struct Buffer {
    chars: Vec<ScreenChar>,
}

impl View for Buffer {
    type V = Seq<ScreenChar>;

    closed spec fn view(&self) -> Seq<ScreenChar> {
        self.chars@
    }
}

impl Buffer {
    /// A grid of blanks in the default color.
    pub fn new() -> (r: Buffer)
        ensures
            r@ == blank_grid(default_color()),
    {
        let mut chars: Vec<ScreenChar> = Vec::new();
        let mut i: usize = 0;
        while i < BUFFER_CELLS
            invariant
                i <= BUFFER_CELLS,
                chars@ == Seq::new(i as nat, |j: int| blank_cell(default_color())),
            decreases BUFFER_CELLS - i,
        {
            chars.push(ScreenChar::default());
            i = i + 1;
        }
        assert(chars@ =~= blank_grid(default_color()));
        Buffer { chars }
    }

    /// The cell at `row`, `col`.
    pub fn cell(&self, row: usize, col: usize) -> (r: ScreenChar)
        requires
            self@.len() == BUFFER_CELLS,
            row < BUFFER_HEIGHT,
            col < BUFFER_WIDTH,
        ensures
            r == self@[cell_index(row as int, col as int)],
    {
        self.chars[row * BUFFER_WIDTH + col]
    }
}

/// The state of a [`Writer`] as mathematical values: the cursor, the active
/// attribute, the grid and every port write issued so far.
pub struct Console {
    pub row: int,
    pub col: int,
    pub color: ColorCode,
    pub cells: Seq<ScreenChar>,
    pub ports: Seq<PortWrite>,
}

impl Console {
    /// The cursor is inside the grid (the column may sit just past the last
    /// cell of its row) and the grid has its full size.
    pub open spec fn wf(self) -> bool {
        &&& 0 <= self.row < BUFFER_HEIGHT
        &&& 0 <= self.col <= BUFFER_WIDTH
        &&& self.cells.len() == BUFFER_CELLS
    }

    /// The cell at `row`, `col`.
    pub open spec fn cell(self, row: int, col: int) -> ScreenChar {
        self.cells[cell_index(row, col)]
    }

    /// The hardware cursor moved to the logical cursor.
    pub open spec fn cursor_moved(self) -> Console {
        Console { ports: self.ports + cursor_writes(self.row, self.col), ..self }
    }

    /// Line advance: column 0 of the next row, scrolling when on the last row.
    pub open spec fn line_advanced(self) -> Console {
        if self.row < BUFFER_HEIGHT - 1 {
            Console { row: self.row + 1, col: 0, ..self }
        } else {
            Console {
                row: BUFFER_HEIGHT - 1,
                col: 0,
                cells: scrolled(self.cells, self.color),
                ..self
            }
        }
    }

    /// A glyph written at the cursor (after wrapping a full row), the column
    /// advanced and the hardware cursor moved.
    pub open spec fn glyph_put(self, glyph: u8) -> Console {
        let s = if self.col >= BUFFER_WIDTH {
            self.line_advanced()
        } else {
            self
        };
        Console {
            col: s.col + 1,
            cells: s.cells.update(
                cell_index(s.row, s.col),
                ScreenChar { ascii_character: glyph, color_code: s.color },
            ),
            ..s
        }.cursor_moved()
    }

    /// The effect of writing one byte to the console.
    pub open spec fn byte_put(self, b: u8) -> Console {
        if b == NEWLINE {
            self.line_advanced().cursor_moved()
        } else if is_printable(b) {
            self.glyph_put(b)
        } else {
            self.glyph_put(UNPRINTABLE)
        }
    }

    /// The effect of writing `bs` byte by byte.
    pub open spec fn bytes_put(self, bs: Seq<u8>) -> Console
        decreases bs.len(),
    {
        if bs.len() == 0 {
            self
        } else {
            self.bytes_put(bs.drop_last()).byte_put(bs.last())
        }
    }

    /// Every cell blank in the active color, the cursor home and moved there.
    pub open spec fn cleared(self) -> Console {
        Console { row: 0, col: 0, cells: blank_grid(self.color), ..self }.cursor_moved()
    }

    /// The cursor placed just past the last mark in the rows above the
    /// cursor's row, or at the top-left corner when there is none. On row 0
    /// there is nothing above and the state is kept.
    pub open spec fn sought_back(self) -> Console {
        let m = last_mark_before(self.cells, cell_index(self.row, 0));
        if self.row == 0 {
            self
        } else if m >= 0 {
            Console {
                row: m / (BUFFER_WIDTH as int),
                col: m % (BUFFER_WIDTH as int) + 1,
                ..self
            }
        } else {
            Console { row: 0, col: 0, ..self }
        }
    }

    /// The effect of deleting one character.
    pub open spec fn byte_deleted(self) -> Console {
        if self.col > 0 {
            Console {
                col: self.col - 1,
                cells: self.cells.update(cell_index(self.row, self.col - 1), blank_cell(self.color)),
                ..self
            }.cursor_moved()
        } else {
            self.sought_back().cursor_moved()
        }
    }
}

/// Text writer for the VGA console: the logical cursor, the active color,
/// the grid and the log of cursor-register writes.
pub struct Writer {
    row_position: usize,
    column_position: usize,
    color_code: ColorCode,
    buffer: Buffer,
    ports: PortLog,
}

impl View for Writer {
    type V = Console;

    closed spec fn view(&self) -> Console {
        Console {
            row: self.row_position as int,
            col: self.column_position as int,
            color: self.color_code,
            cells: self.buffer@,
            ports: self.ports@,
        }
    }
}

impl Writer {
    /// A writer at the top-left corner of a blank grid, in the default color,
    /// with no port write issued.
    pub fn new() -> (r: Writer)
        ensures
            r@ == (Console {
                row: 0,
                col: 0,
                color: default_color(),
                cells: blank_grid(default_color()),
                ports: Seq::<PortWrite>::empty(),
            }),
            r@.wf(),
    {
        Writer {
            row_position: 0,
            column_position: 0,
            color_code: ColorCode::default(),
            buffer: Buffer::new(),
            ports: PortLog::new(),
        }
    }

    /// Current row of the cursor.
    pub fn row(&self) -> (r: usize)
        ensures
            r == self@.row,
    {
        self.row_position
    }

    /// Current column of the cursor.
    pub fn column(&self) -> (r: usize)
        ensures
            r == self@.col,
    {
        self.column_position
    }

    /// The cell at `row`, `col`.
    pub fn cell(&self, row: usize, col: usize) -> (r: ScreenChar)
        requires
            self@.wf(),
            row < BUFFER_HEIGHT,
            col < BUFFER_WIDTH,
        ensures
            r == self@.cell(row as int, col as int),
    {
        self.buffer.cell(row, col)
    }

    /// Hands out the port writes issued since the last call, oldest first.
    pub fn take_port_writes(&mut self) -> (r: Vec<PortWrite>)
        ensures
            r@ == old(self)@.ports,
            final(self)@ == (Console { ports: Seq::<PortWrite>::empty(), ..old(self)@ }),
    {
        self.ports.take()
    }

    /// Reads the character at `row`, `col`.
    fn read_byte_at(&self, row: usize, col: usize) -> (r: u8)
        requires
            self@.wf(),
            row < BUFFER_HEIGHT,
            col < BUFFER_WIDTH,
        ensures
            r == self@.cell(row as int, col as int).ascii_character,
    {
        self.buffer.cell(row, col).ascii_character
    }

    /// Moves the hardware cursor to `row`, `col`.
    fn move_cursor_at(&mut self, row: usize, col: usize)
        requires
            row < BUFFER_HEIGHT,
            col <= BUFFER_WIDTH,
        ensures
            final(self)@ == (Console {
                ports: old(self)@.ports + cursor_writes(row as int, col as int),
                ..old(self)@
            }),
    {
        let pos: u16 = (row * BUFFER_WIDTH + col) as u16;
        assert(pos & 0xFF == pos % 256 && (pos >> 8u16) & 0xFF == pos / 256) by (bit_vector);
        self.ports.outb(BUFFER_CMD_PORT, CURSOR_LOW);
        self.ports.outb(BUFFER_DATA_PORT, (pos & 0xFF) as u8);
        self.ports.outb(BUFFER_CMD_PORT, CURSOR_HIGH);
        self.ports.outb(BUFFER_DATA_PORT, ((pos >> 8u16) & 0xFF) as u8);
        assert(self.ports@ =~= old(self)@.ports + cursor_writes(row as int, col as int));
    }

    /// Moves the hardware cursor to the logical cursor.
    fn move_cursor(&mut self)
        requires
            old(self)@.wf(),
        ensures
            final(self)@ == old(self)@.cursor_moved(),
    {
        self.move_cursor_at(self.row_position, self.column_position);
    }

    /// Writes `byte` in the active color at `row`, `col`.
    fn write_byte_at(&mut self, byte: u8, row: usize, col: usize)
        requires
            old(self)@.wf(),
            row < BUFFER_HEIGHT,
            col < BUFFER_WIDTH,
        ensures
            final(self)@ == (Console {
                cells: old(self)@.cells.update(
                    cell_index(row as int, col as int),
                    ScreenChar { ascii_character: byte, color_code: old(self)@.color },
                ),
                ..old(self)@
            }),
    {
        let color_code = self.color_code;
        self.buffer.chars[row * BUFFER_WIDTH + col] = ScreenChar {
            ascii_character: byte,
            color_code,
        };
    }

    /// Overwrites every cell of `row` with a blank in the active color.
    fn clear_row(&mut self, row: usize)
        requires
            old(self)@.wf(),
            row < BUFFER_HEIGHT,
        ensures
            final(self)@ == (Console {
                cells: Seq::new(
                    BUFFER_CELLS as nat,
                    |i: int|
                        if cell_index(row as int, 0) <= i < cell_index(row as int, BUFFER_WIDTH as int) {
                            blank_cell(old(self)@.color)
                        } else {
                            old(self)@.cells[i]
                        },
                ),
                ..old(self)@
            }),
    {
        let ghost before = self@;
        let mut col: usize = 0;
        while col < BUFFER_WIDTH
            invariant
                row < BUFFER_HEIGHT,
                col <= BUFFER_WIDTH,
                self@.wf(),
                self@ == (Console { cells: self@.cells, ..before }),
                forall|i: int|
                    0 <= i < BUFFER_CELLS ==> #[trigger] self@.cells[i] == if cell_index(row as int, 0)
                        <= i < cell_index(row as int, col as int) {
                        blank_cell(before.color)
                    } else {
                        before.cells[i]
                    },
            decreases BUFFER_WIDTH - col,
        {
            self.write_byte_at(BLANK, row, col);
            col = col + 1;
        }
        assert(self@.cells =~= Seq::new(
            BUFFER_CELLS as nat,
            |i: int|
                if cell_index(row as int, 0) <= i < cell_index(row as int, BUFFER_WIDTH as int) {
                    blank_cell(before.color)
                } else {
                    before.cells[i]
                },
        ));
    }

    /// Moves to column 0 of the next row; on the last row, scrolls the grid
    /// up by one line and blanks the last row.
    fn new_line(&mut self)
        requires
            old(self)@.wf(),
        ensures
            final(self)@ == old(self)@.line_advanced(),
            final(self)@.wf(),
    {
        let ghost before = self@;
        self.column_position = 0;
        if self.row_position < BUFFER_HEIGHT - 1 {
            self.row_position = self.row_position + 1;
        } else {
            self.row_position = BUFFER_HEIGHT - 1;
            let mut i: usize = 0;
            while i < BUFFER_CELLS - BUFFER_WIDTH
                invariant
                    i <= BUFFER_CELLS - BUFFER_WIDTH,
                    self@.wf(),
                    self@ == (Console { cells: self@.cells, row: BUFFER_HEIGHT - 1, col: 0, ..before }),
                    before.cells.len() == BUFFER_CELLS,
                    forall|j: int| 0 <= j < i ==> #[trigger] self@.cells[j] == before.cells[j + BUFFER_WIDTH],
                    forall|j: int| i <= j < BUFFER_CELLS ==> #[trigger] self@.cells[j] == before.cells[j],
                decreases BUFFER_CELLS - BUFFER_WIDTH - i,
            {
                let c = self.buffer.chars[i + BUFFER_WIDTH];
                self.buffer.chars[i] = c;
                i = i + 1;
            }
            self.clear_row(BUFFER_HEIGHT - 1);
            assert(self@.cells =~= scrolled(before.cells, before.color));
        }
    }

    /// Overwrites every cell with a blank in the active color and moves the
    /// cursor, logical and hardware, to the top-left corner.
    pub fn clear_screen(&mut self)
        requires
            old(self)@.wf(),
        ensures
            final(self)@ == old(self)@.cleared(),
            final(self)@.wf(),
    {
        let ghost before = self@;
        let mut row: usize = 0;
        while row < BUFFER_HEIGHT
            invariant
                row <= BUFFER_HEIGHT,
                self@.wf(),
                self@ == (Console { cells: self@.cells, ..before }),
                forall|i: int|
                    0 <= i < BUFFER_CELLS ==> #[trigger] self@.cells[i] == if i < cell_index(
                        row as int,
                        0,
                    ) {
                        blank_cell(before.color)
                    } else {
                        before.cells[i]
                    },
            decreases BUFFER_HEIGHT - row,
        {
            self.clear_row(row);
            row = row + 1;
        }
        assert(self@.cells =~= blank_grid(before.color));
        self.row_position = 0;
        self.column_position = 0;
        self.move_cursor();
    }

    /// Writes one byte: a newline advances the line, printable ASCII is shown
    /// as it is, and any other byte is shown as the unprintable glyph.
    pub fn write_byte(&mut self, byte: u8)
        requires
            old(self)@.wf(),
        ensures
            final(self)@ == old(self)@.byte_put(byte),
            final(self)@.wf(),
    {
        if byte == NEWLINE {
            self.new_line();
            self.move_cursor();
        } else {
            let glyph = if 0x20 <= byte && byte <= 0x7E {
                byte
            } else {
                UNPRINTABLE
            };
            if self.column_position >= BUFFER_WIDTH {
                self.new_line();
            }
            self.write_byte_at(glyph, self.row_position, self.column_position);
            self.column_position = self.column_position + 1;
            self.move_cursor();
        }
    }

    /// Writes every byte of `s`, in order, as `write_byte` does; the bytes
    /// are taken as they are, not as characters.
    pub fn write_string(&mut self, s: &str)
        requires
            old(self)@.wf(),
        ensures
            final(self)@ == old(self)@.bytes_put(s.spec_bytes()),
            final(self)@.wf(),
    {
        let ghost before = self@;
        let bytes = s.as_bytes();
        let mut i: usize = 0;
        while i < bytes.len()
            invariant
                i <= bytes@.len(),
                bytes@ == s.spec_bytes(),
                self@.wf(),
                self@ == before.bytes_put(bytes@.subrange(0, i as int)),
            decreases bytes@.len() - i,
        {
            self.write_byte(bytes[i]);
            assert(bytes@.subrange(0, i + 1).drop_last() =~= bytes@.subrange(0, i as int));
            i = i + 1;
        }
        assert(bytes@.subrange(0, bytes@.len() as int) =~= bytes@);
    }

    /// Walks back over the rows above the cursor, each scanned from its right
    /// edge leftward, and stops just past the first non-blank cell found;
    /// rows of blanks are skipped. Without one, stops at the top-left corner.
    /// On row 0 nothing is above, and the cursor stays where it is.
    fn move_to_previous_non_blank(&mut self)
        requires
            old(self)@.wf(),
        ensures
            final(self)@ == old(self)@.sought_back(),
            final(self)@.wf(),
    {
        let ghost before = self@;
        let ghost target = last_mark_before(before.cells, cell_index(before.row, 0));
        while self.row_position > 0
            invariant
                self@.wf(),
                self@ == (Console { row: self@.row, col: self@.col, ..before }),
                self@.row <= before.row,
                self@.row == before.row ==> self@.col == before.col,
                self@.row < before.row ==> self@.col == 0,
                before == old(self)@,
                target == last_mark_before(before.cells, cell_index(before.row, 0)),
                last_mark_before(before.cells, cell_index(self@.row, 0)) == target,
            decreases self.row_position,
        {
            self.row_position = self.row_position - 1;
            self.column_position = BUFFER_WIDTH;
            let ghost r0 = self@.row;
            while self.column_position > 0
                invariant
                    self@.wf(),
                    self@ == (Console { row: self@.row, col: self@.col, ..before }),
                    self@.row == r0,
                    r0 < before.row,
                    before == old(self)@,
                    target == last_mark_before(before.cells, cell_index(before.row, 0)),
                    self@.col <= BUFFER_WIDTH,
                    last_mark_before(before.cells, cell_index(self@.row, self@.col)) == target,
                decreases self.column_position,
            {
                let character = self.read_byte_at(self.row_position, self.column_position - 1);
                if character != BLANK {
                    proof {
                        let r = self@.row;
                        let c = self@.col;
                        assert((r * 80 + c - 1) % 80 == c - 1 && (r * 80 + c - 1) / 80 == r)
                            by (nonlinear_arith)
                            requires
                                r >= 0,
                                1 <= c <= 80,
                        ;
                        assert(is_mark(before.cells, r * 80 + c - 1));
                        assert(last_mark_before(before.cells, r * 80 + c) == r * 80 + c - 1);
                    }
                    return ;
                }
                self.column_position = self.column_position - 1;
            }
        }
    }

    /// Erases one character: the cell left of the cursor when the column is
    /// not 0, else the cursor goes back as `move_to_previous_non_blank`
    /// describes. The hardware cursor follows.
    pub fn delete_byte(&mut self)
        requires
            old(self)@.wf(),
        ensures
            final(self)@ == old(self)@.byte_deleted(),
            final(self)@.wf(),
    {
        if self.column_position > 0 {
            self.column_position = self.column_position - 1;
            self.write_byte_at(BLANK, self.row_position, self.column_position);
        } else {
            self.move_to_previous_non_blank();
        }
        self.move_cursor();
    }
}

} // verus!
