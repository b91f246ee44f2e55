//! The mathematical model of the screen writer: what is on the display, where
//! the cursor stands, and what each write does to both.

use vstd::prelude::*;
use crate::glyph::{blank_cell, color_attribute, display_cell, Color, DisplayCell, NEWLINE};

verus! {

/// The number of columns of the display.
pub const VGA_WIDTH: usize = 80;

/// The number of rows of the display.
pub const VGA_HEIGHT: usize = 25;

/// A row of blank cells in the given attribute.
pub open spec fn blank_row(attribute: u8) -> Seq<DisplayCell> {
    Seq::new(VGA_WIDTH as nat, |column: int| blank_cell(attribute))
}

/// A whole grid of blank cells in the given attribute.
pub open spec fn blank_rows(attribute: u8) -> Seq<Seq<DisplayCell>> {
    Seq::new(VGA_HEIGHT as nat, |row: int| blank_row(attribute))
}

/// The state of a screen writer.
///
/// The cursor never leaves the bottom row. Its column is the place of the
/// next glyph; it equals the width while a full bottom line waits for the
/// next glyph to scroll it up.
pub struct WriterState {
    /// The cursor column.
    pub column: nat,
    /// The attribute that new cells are written in.
    pub attribute: u8,
    /// The cells of the display, top row first.
    pub rows: Seq<Seq<DisplayCell>>,
}

impl WriterState {
    /// The grid has the display's dimensions, every glyph on it is
    /// displayable, and the cursor is within the line or just past its end.
    pub open spec fn wf(self) -> bool {
        &&& self.column <= VGA_WIDTH
        &&& self.rows.len() == VGA_HEIGHT
        &&& forall|row: int|
            0 <= row < VGA_HEIGHT ==> (#[trigger] self.rows[row]).len() == VGA_WIDTH
        &&& forall|row: int, column: int|
            0 <= row < VGA_HEIGHT && 0 <= column < VGA_WIDTH ==> (
            #[trigger] self.rows[row][column]).displayable()
    }

    /// A fresh writer: a blank screen in yellow on black, the cursor at the
    /// start of the bottom line.
    pub open spec fn initial() -> WriterState {
        let attribute = color_attribute(Color::Yellow, Color::Black);
        WriterState { column: 0, attribute, rows: blank_rows(attribute) }
    }

    /// Row `row` blanked in the current attribute.
    pub open spec fn clear_row(self, row: int) -> WriterState {
        WriterState { rows: self.rows.update(row, blank_row(self.attribute)), ..self }
    }

    /// Every row blanked in the current attribute; the cursor stays.
    pub open spec fn clear_screen(self) -> WriterState {
        WriterState { rows: blank_rows(self.attribute), ..self }
    }

    /// Scroll and reset: the top row leaves, every other row moves up by
    /// one, a blank row in the current attribute enters at the bottom, and
    /// the cursor returns to column 0.
    pub open spec fn new_line(self) -> WriterState {
        WriterState {
            column: 0,
            rows: self.rows.subrange(1, VGA_HEIGHT as int).push(blank_row(self.attribute)),
            ..self
        }
    }

    /// The cell for `byte` placed at the cursor, and the cursor moved one
    /// column on.
    pub open spec fn put(self, byte: u8) -> WriterState {
        let bottom = VGA_HEIGHT - 1;
        WriterState {
            column: self.column + 1,
            rows: self.rows.update(
                bottom,
                self.rows[bottom].update(self.column as int, display_cell(byte, self.attribute)),
            ),
            ..self
        }
    }

    /// Whether writing `byte` starts with a scroll and reset: it is a line
    /// feed, or the bottom line is full.
    pub open spec fn scrolls_on(self, byte: u8) -> bool {
        byte == NEWLINE || self.column >= VGA_WIDTH
    }

    /// One byte written. A line feed scrolls and resets. Any other byte is
    /// placed at the cursor, after a scroll and reset where the line is full.
    pub open spec fn write_byte(self, byte: u8) -> WriterState {
        if byte == NEWLINE {
            self.new_line()
        } else if self.column >= VGA_WIDTH {
            self.new_line().put(byte)
        } else {
            self.put(byte)
        }
    }

    /// The bytes written one after the other, first to last.
    pub open spec fn write_bytes(self, bytes: Seq<u8>) -> WriterState
        decreases bytes.len(),
    {
        if bytes.len() == 0 {
            self
        } else {
            self.write_bytes(bytes.drop_last()).write_byte(bytes.last())
        }
    }

    /// How many times writing the bytes scrolls and resets.
    pub open spec fn scroll_count(self, bytes: Seq<u8>) -> nat
        decreases bytes.len(),
    {
        if bytes.len() == 0 {
            0
        } else {
            let before = self.write_bytes(bytes.drop_last());
            let earlier = self.scroll_count(bytes.drop_last());
            if before.scrolls_on(bytes.last()) {
                earlier + 1
            } else {
                earlier
            }
        }
    }
}

/// A fresh writer is well formed.
pub proof fn lemma_initial_wf()
    ensures
        WriterState::initial().wf(),
{
}

/// Clearing keeps a writer well formed.
pub proof fn lemma_clear_wf(state: WriterState, row: int)
    requires
        state.wf(),
        0 <= row < VGA_HEIGHT,
    ensures
        state.clear_row(row).wf(),
        state.clear_screen().wf(),
{
}

/// Scroll and reset keeps a writer well formed.
pub proof fn lemma_new_line_wf(state: WriterState)
    requires
        state.wf(),
    ensures
        state.new_line().wf(),
{
}

/// Writing a byte keeps a writer well formed.
pub proof fn lemma_write_byte_wf(state: WriterState, byte: u8)
    requires
        state.wf(),
    ensures
        state.write_byte(byte).wf(),
{
    lemma_new_line_wf(state);
}

/// Writing bytes keeps a writer well formed.
pub proof fn lemma_write_bytes_wf(state: WriterState, bytes: Seq<u8>)
    requires
        state.wf(),
    ensures
        state.write_bytes(bytes).wf(),
    decreases bytes.len(),
{
    if bytes.len() > 0 {
        lemma_write_bytes_wf(state, bytes.drop_last());
        lemma_write_byte_wf(state.write_bytes(bytes.drop_last()), bytes.last());
    }
}

/// A line feed, wherever the cursor stands, puts the cursor at column 0 and
/// moves every row up by one: what was on the top row is gone, and the
/// bottom row is blank in the current attribute.
pub proof fn lemma_line_feed_scrolls(state: WriterState)
    requires
        state.wf(),
    ensures
        state.write_byte(NEWLINE).column == 0,
        state.write_byte(NEWLINE).attribute == state.attribute,
        state.write_byte(NEWLINE).rows.len() == VGA_HEIGHT,
        forall|row: int|
            0 <= row < VGA_HEIGHT - 1 ==> #[trigger] state.write_byte(NEWLINE).rows[row]
                == state.rows[row + 1],
        state.write_byte(NEWLINE).rows[VGA_HEIGHT - 1] == blank_row(state.attribute),
        state.scroll_count(seq![NEWLINE]) == 1,
{
    let bytes = seq![NEWLINE];
    assert(bytes.drop_last().len() == 0);
    assert(state.write_bytes(bytes.drop_last()) == state);
    assert(state.scroll_count(bytes.drop_last()) == 0);
}

/// Clearing the screen twice is clearing it once.
pub proof fn lemma_clear_screen_idempotent(state: WriterState)
    ensures
        state.clear_screen().clear_screen() == state.clear_screen(),
{
}

/// A cleared screen is blank in every place, in the current attribute.
pub proof fn lemma_clear_screen_blank(state: WriterState)
    ensures
        state.clear_screen().column == state.column,
        state.clear_screen().attribute == state.attribute,
        forall|row: int, column: int|
            0 <= row < VGA_HEIGHT && 0 <= column < VGA_WIDTH
                ==> #[trigger] state.clear_screen().rows[row][column] == blank_cell(
                state.attribute,
            ),
{
}

} // verus!
