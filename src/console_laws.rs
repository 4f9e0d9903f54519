//! Properties of the console that hold for every state and every input.
use crate::vga::{
    blank_cell, cell_index, is_printable, Console, ScreenChar, BUFFER_HEIGHT, BUFFER_WIDTH,
    NEWLINE, UNPRINTABLE,
};
use vstd::prelude::*;

verus! {

/// Writing a printable byte stores it, in the active color, in the cell just
/// left of the new cursor; when the row was not full that cell is the one
/// the cursor was on before the write.
pub proof fn lemma_printable_byte_is_stored(s: Console, b: u8)
    requires
        s.wf(),
        is_printable(b),
    ensures
        s.byte_put(b).wf(),
        s.byte_put(b).col >= 1,
        s.byte_put(b).cell(s.byte_put(b).row, s.byte_put(b).col - 1) == (ScreenChar {
            ascii_character: b,
            color_code: s.color,
        }),
        s.col < BUFFER_WIDTH ==> s.byte_put(b).row == s.row && s.byte_put(b).col == s.col + 1,
        s.col < BUFFER_WIDTH ==> s.byte_put(b).cell(s.row, s.col) == (ScreenChar {
            ascii_character: b,
            color_code: s.color,
        }),
{
}

/// Any byte that is neither printable nor a newline has exactly the effect
/// of the unprintable glyph.
pub proof fn lemma_unprintable_byte_is_substituted(s: Console, b: u8)
    requires
        !is_printable(b),
        b != NEWLINE,
    ensures
        s.byte_put(b) == s.byte_put(UNPRINTABLE),
{
}

/// Printable bytes that fit in the rest of the row advance the column by
/// their number and stay on the row.
pub proof fn lemma_printable_run_advances_column(s: Console, bs: Seq<u8>)
    requires
        s.wf(),
        s.col + bs.len() <= BUFFER_WIDTH,
        forall|i: int| 0 <= i < bs.len() ==> is_printable(#[trigger] bs[i]),
    ensures
        s.bytes_put(bs).wf(),
        s.bytes_put(bs).row == s.row,
        s.bytes_put(bs).col == s.col + bs.len(),
        s.bytes_put(bs).color == s.color,
    decreases bs.len(),
{
    if bs.len() > 0 {
        let init = bs.drop_last();
        assert forall|i: int| 0 <= i < init.len() implies is_printable(#[trigger] init[i]) by {
            assert(init[i] == bs[i]);
        }
        lemma_printable_run_advances_column(s, init);
        assert(is_printable(bs[bs.len() - 1]));
    }
}

/// A full row of printable bytes written from column 0 leaves the cursor at
/// column `BUFFER_WIDTH`; one more printable byte first wraps to column 0 of
/// the next row (scrolling on the last row) and is written there.
pub proof fn lemma_full_row_then_wrap(s: Console, bs: Seq<u8>, b: u8)
    requires
        s.wf(),
        s.col == 0,
        bs.len() == BUFFER_WIDTH,
        forall|i: int| 0 <= i < bs.len() ==> is_printable(#[trigger] bs[i]),
        is_printable(b),
    ensures
        s.bytes_put(bs).col == BUFFER_WIDTH,
        s.bytes_put(bs).row == s.row,
        s.bytes_put(bs).byte_put(b).row == if s.row < BUFFER_HEIGHT - 1 {
            s.row + 1
        } else {
            s.row
        },
        s.bytes_put(bs).byte_put(b).col == 1,
        s.bytes_put(bs).byte_put(b).cell(s.bytes_put(bs).byte_put(b).row, 0) == (ScreenChar {
            ascii_character: b,
            color_code: s.color,
        }),
{
    lemma_printable_run_advances_column(s, bs);
}

/// A newline on the last row scrolls: every row moves up by one, the old
/// row 0 is gone, the last row is blank and the cursor is at its start.
pub proof fn lemma_newline_on_last_row_scrolls(s: Console)
    requires
        s.wf(),
        s.row == BUFFER_HEIGHT - 1,
    ensures
        s.byte_put(NEWLINE).wf(),
        s.byte_put(NEWLINE).row == BUFFER_HEIGHT - 1,
        s.byte_put(NEWLINE).col == 0,
        forall|r: int, c: int|
            0 <= r < BUFFER_HEIGHT - 1 && 0 <= c < BUFFER_WIDTH ==> #[trigger] s.byte_put(
                NEWLINE,
            ).cell(r, c) == s.cell(r + 1, c),
        forall|c: int|
            0 <= c < BUFFER_WIDTH ==> #[trigger] s.byte_put(NEWLINE).cell(BUFFER_HEIGHT - 1, c)
                == blank_cell(s.color),
{
    let t = s.byte_put(NEWLINE);
    assert forall|r: int, c: int|
        0 <= r < BUFFER_HEIGHT - 1 && 0 <= c < BUFFER_WIDTH implies #[trigger] t.cell(r, c)
        == s.cell(r + 1, c) by {
        assert(cell_index(r, c) + BUFFER_WIDTH == cell_index(r + 1, c));
    }
}

/// Clearing twice leaves the same grid and cursor as clearing once, and the
/// cursor is always home afterwards.
pub proof fn lemma_clear_screen_idempotent(s: Console)
    ensures
        s.cleared().cleared().cells == s.cleared().cells,
        s.cleared().cleared().color == s.cleared().color,
        s.cleared().cleared().row == s.cleared().row,
        s.cleared().cleared().col == s.cleared().col,
        s.cleared().row == 0,
        s.cleared().col == 0,
{
}

} // verus!
