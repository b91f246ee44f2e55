//! The display as a window over the output: what stands on the screen after
//! any run of bytes without a line feed, and what follows for whole lines
//! and whole screens.

use vstd::prelude::*;
use crate::glyph::{blank_cell, display_cell, DisplayCell, NEWLINE};
use crate::screen::{WriterState, VGA_HEIGHT, VGA_WIDTH};

verus! {

/// Whether no byte of the sequence is a line feed.
pub open spec fn no_line_feed(bytes: Seq<u8>) -> bool {
    forall|index: int| 0 <= index < bytes.len() ==> bytes[index] != NEWLINE
}

/// The cells of the bytes in an attribute, in order.
pub open spec fn line_cells(bytes: Seq<u8>, attribute: u8) -> Seq<DisplayCell> {
    Seq::new(bytes.len(), |index: int| display_cell(bytes[index], attribute))
}

/// The stream of cells that the bottom line is the start of: the cells that
/// stand before the cursor, then the cells of the bytes.
pub open spec fn stream(state: WriterState, bytes: Seq<u8>) -> Seq<DisplayCell> {
    state.rows[VGA_HEIGHT - 1].take(state.column as int) + line_cells(bytes, state.attribute)
}

/// The number of line ends that a stream of `length` cells has passed: a
/// line ends when a cell follows its last column, not when that column is
/// filled.
pub open spec fn wraps(length: nat) -> nat {
    if length == 0 {
        0
    } else {
        ((length - 1) / (VGA_WIDTH as int)) as nat
    }
}

/// The cell that stands at a place of the display once the bytes are
/// written: the lines of the stream end on the bottom row, the rows above
/// them are the rows that were there before, moved up.
pub open spec fn window_cell(
    state: WriterState,
    bytes: Seq<u8>,
    row: int,
    column: int,
) -> DisplayCell {
    let cells = stream(state, bytes);
    let scrolls = wraps(cells.len());
    let line = row + scrolls - (VGA_HEIGHT - 1);
    let position = line * VGA_WIDTH + column;
    if line < 0 {
        state.rows[row + scrolls][column]
    } else if position < cells.len() {
        cells[position]
    } else if scrolls == 0 {
        state.rows[row][column]
    } else {
        blank_cell(state.attribute)
    }
}

/// Writing a run of bytes is writing its first part, then its second.
pub proof fn lemma_write_bytes_concat(state: WriterState, first: Seq<u8>, second: Seq<u8>)
    ensures
        state.write_bytes(first + second) == state.write_bytes(first).write_bytes(second),
        state.scroll_count(first + second) == state.scroll_count(first) + state.write_bytes(
            first,
        ).scroll_count(second),
    decreases second.len(),
{
    if second.len() == 0 {
        assert(first + second =~= first);
    } else {
        assert((first + second).drop_last() =~= first + second.drop_last());
        lemma_write_bytes_concat(state, first, second.drop_last());
    }
}

/// After any run of bytes without a line feed, the display is a window over
/// the stream of cells: the cursor stands behind the stream's last cell, the
/// writer has scrolled once for each line end that the stream has passed,
/// and every place shows the cell that `window_cell` gives.
pub proof fn lemma_display_is_window(state: WriterState, bytes: Seq<u8>)
    requires
        state.wf(),
        no_line_feed(bytes),
    ensures
        state.write_bytes(bytes).wf(),
        state.write_bytes(bytes).attribute == state.attribute,
        state.write_bytes(bytes).column == stream(state, bytes).len() - wraps(
            stream(state, bytes).len(),
        ) * VGA_WIDTH,
        state.scroll_count(bytes) == wraps(stream(state, bytes).len()),
        forall|row: int, column: int|
            0 <= row < VGA_HEIGHT && 0 <= column < VGA_WIDTH ==> #[trigger] state.write_bytes(
                bytes,
            ).rows[row][column] == window_cell(state, bytes, row, column),
    decreases bytes.len(),
{
    let cells = stream(state, bytes);
    if bytes.len() == 0 {
        assert(cells =~= state.rows[VGA_HEIGHT - 1].take(state.column as int));
    } else {
        let earlier = bytes.drop_last();
        let byte = bytes.last();
        let before = state.write_bytes(earlier);
        let after = before.write_byte(byte);
        let cells_before = stream(state, earlier);
        lemma_display_is_window(state, earlier);
        crate::screen::lemma_write_byte_wf(before, byte);
        assert(cells =~= cells_before.push(display_cell(byte, state.attribute)));
        assert(byte != NEWLINE);
        assert forall|row: int, column: int|
            0 <= row < VGA_HEIGHT && 0 <= column < VGA_WIDTH implies #[trigger] after.rows[row][column]
            == window_cell(state, bytes, row, column) by {
            assert(before.rows[row][column] == window_cell(state, earlier, row, column));
            if before.column >= VGA_WIDTH && row < VGA_HEIGHT - 1 {
                let below = row + 1;
                assert(before.rows[below][column] == window_cell(state, earlier, below, column));
            }
        }
    }
}

/// Writing exactly one line's worth of bytes without a line feed scrolls and
/// resets once and leaves the cursor in the column it started from; only
/// from column 0 do the bytes fill the empty bottom line without a scroll,
/// and the cursor then waits behind its last column.
pub proof fn lemma_one_line_of_output(state: WriterState, bytes: Seq<u8>)
    requires
        state.wf(),
        no_line_feed(bytes),
        bytes.len() == VGA_WIDTH,
    ensures
        state.column > 0 ==> state.scroll_count(bytes) == 1 && state.write_bytes(bytes).column
            == state.column,
        state.column == 0 ==> state.scroll_count(bytes) == 0 && state.write_bytes(bytes).column
            == VGA_WIDTH,
{
    lemma_display_is_window(state, bytes);
}

/// The number of leading bytes of a run that complete the line the cursor
/// stands in, where that line has been begun and is not yet full.
pub open spec fn bytes_to_line_end(state: WriterState) -> nat {
    if state.column == 0 {
        0
    } else {
        (VGA_WIDTH - state.column) as nat
    }
}

/// The cell at a place of the display after one screen's worth of bytes: the
/// rows show the bytes in order, from the first byte that starts a line of
/// its own, and blanks behind the last byte.
pub open spec fn full_screen_cell(
    state: WriterState,
    bytes: Seq<u8>,
    row: int,
    column: int,
) -> DisplayCell {
    let index = row * VGA_WIDTH + column + bytes_to_line_end(state);
    if index < bytes.len() {
        display_cell(bytes[index], state.attribute)
    } else {
        blank_cell(state.attribute)
    }
}

/// Writing exactly one screen's worth of bytes without a line feed leaves
/// nothing of the earlier display: every place shows the cell that
/// `full_screen_cell` gives. From a cursor at the start or behind the end of
/// the bottom line, that is all the bytes in order, the last line's worth on
/// the bottom row; from a cursor inside the line, the bytes that completed
/// that line have scrolled off the top.
pub proof fn lemma_one_screen_of_output(state: WriterState, bytes: Seq<u8>)
    requires
        state.wf(),
        no_line_feed(bytes),
        bytes.len() == VGA_WIDTH * VGA_HEIGHT,
    ensures
        state.write_bytes(bytes).column == (if state.column == 0 {
            VGA_WIDTH as nat
        } else {
            state.column
        }),
        state.scroll_count(bytes) == (if state.column == 0 {
            VGA_HEIGHT - 1
        } else {
            VGA_HEIGHT as int
        }),
        forall|row: int, column: int|
            0 <= row < VGA_HEIGHT && 0 <= column < VGA_WIDTH ==> #[trigger] state.write_bytes(
                bytes,
            ).rows[row][column] == full_screen_cell(state, bytes, row, column),
{
    lemma_display_is_window(state, bytes);
    let after = state.write_bytes(bytes);
    assert forall|row: int, column: int|
        0 <= row < VGA_HEIGHT && 0 <= column < VGA_WIDTH implies #[trigger] after.rows[row][column]
        == full_screen_cell(state, bytes, row, column) by {
        assert(after.rows[row][column] == window_cell(state, bytes, row, column));
    }
}

} // verus!
