//! The screen writer: a grid of cells with the cursor pinned to the bottom
//! line, where every new line scrolls the grid upwards.
//!
//! The writer keeps the grid in its own memory and never touches the
//! display. Whoever drives the hardware copies [`Writer::buffer`] to display
//! memory after a write, cell by cell, as [`ScreenChar::bits`] gives them.

use vstd::prelude::*;
use vstd::string::StringSliceAdditionalSpecFns;
use crate::glyph::{blank_cell, Color, ColorCode, DisplayCell, ScreenChar, NEWLINE};
use crate::screen::{blank_row, WriterState, VGA_HEIGHT, VGA_WIDTH};

verus! {

/// The grid of cells of the display, top row first.
#[derive(Debug, Clone, Copy)]
pub struct Buffer {
    chars: [[ScreenChar; VGA_WIDTH]; VGA_HEIGHT],
}

impl View for Buffer {
    type V = Seq<Seq<DisplayCell>>;

    closed spec fn view(&self) -> Seq<Seq<DisplayCell>> {
        Seq::new(
            VGA_HEIGHT as nat,
            |row: int| Seq::new(VGA_WIDTH as nat, |column: int| self.chars[row][column]@),
        )
    }
}

impl Buffer {
    /// Stores a cell at a place on the display.
    fn put(&mut self, row: usize, column: usize, cell: ScreenChar)
        requires
            row < VGA_HEIGHT,
            column < VGA_WIDTH,
        ensures
            final(self)@ == old(self)@.update(
                row as int,
                old(self)@[row as int].update(column as int, cell@),
            ),
        no_unwind
    {
        self.chars[row][column] = cell;
        assert(self@ =~~= old(self)@.update(
            row as int,
            old(self)@[row as int].update(column as int, cell@),
        ));
    }

    /// Reads the cell at a place on the display.
    fn get(&self, row: usize, column: usize) -> (cell: ScreenChar)
        requires
            row < VGA_HEIGHT,
            column < VGA_WIDTH,
        ensures
            cell@ == self@[row as int][column as int],
    {
        self.chars[row][column]
    }

    /// The cell at a row and a column, if both are on the display.
    pub fn cell(&self, row: usize, column: usize) -> (cell: Option<ScreenChar>)
        ensures
            self@.len() == VGA_HEIGHT,
            forall|r: int| 0 <= r < VGA_HEIGHT ==> (#[trigger] self@[r]).len() == VGA_WIDTH,
            cell is Some <==> row < VGA_HEIGHT && column < VGA_WIDTH,
            cell matches Some(found) ==> found@ == self@[row as int][column as int],
    {
        if row < VGA_HEIGHT && column < VGA_WIDTH {
            Some(self.get(row, column))
        } else {
            None
        }
    }
}

/// Writes bytes to the display through a cursor on the bottom line.
#[derive(Debug)]
pub struct Writer {
    column_position: usize,
    color_code: ColorCode,
    buffer: Buffer,
}

impl View for Writer {
    type V = WriterState;

    closed spec fn view(&self) -> WriterState {
        WriterState {
            column: self.column_position as nat,
            attribute: self.color_code@,
            rows: self.buffer@,
        }
    }
}

impl Writer {
    #[verifier::type_invariant]
    pub(crate) open spec fn inv(self) -> bool {
        self@.wf()
    }

    /// A writer on a blank screen, in yellow on black, with the cursor at the
    /// start of the bottom line.
    pub fn new() -> (writer: Writer)
        ensures
            writer@ == WriterState::initial(),
            writer@.wf(),
    {
        let color_code = ColorCode::new(Color::Yellow, Color::Black);
        let blank = ScreenChar::new(0x20, color_code);
        let writer = Writer {
            column_position: 0,
            color_code,
            buffer: Buffer { chars: [[blank; VGA_WIDTH]; VGA_HEIGHT] },
        };
        assert(writer@.rows =~~= WriterState::initial().rows);
        writer
    }

    /// The cursor column.
    pub fn column_position(&self) -> (column: usize)
        ensures
            column == self@.column,
            self@.wf(),
    {
        proof {
            use_type_invariant(self);
        }
        self.column_position
    }

    /// The colours that new cells are written in.
    pub fn color_code(&self) -> (color: ColorCode)
        ensures
            color@ == self@.attribute,
            self@.wf(),
    {
        proof {
            use_type_invariant(self);
        }
        self.color_code
    }

    /// The cells of the display.
    pub fn buffer(&self) -> (buffer: &Buffer)
        ensures
            buffer@ == self@.rows,
            self@.wf(),
    {
        proof {
            use_type_invariant(self);
        }
        &self.buffer
    }

    /// Blanks one row in the current colours.
    fn clear_row(&mut self, row: usize)
        requires
            row < VGA_HEIGHT,
        ensures
            final(self)@ == old(self)@.clear_row(row as int),
    {
        proof {
            use_type_invariant(&*self);
        }
        let blank = ScreenChar::new(0x20, self.color_code);
        let mut col: usize = 0;
        while col < VGA_WIDTH
            invariant
                row < VGA_HEIGHT,
                col <= VGA_WIDTH,
                self@.wf(),
                blank@ == blank_cell(self@.attribute),
                self@.column == old(self)@.column,
                self@.attribute == old(self)@.attribute,
                forall|r: int|
                    0 <= r < VGA_HEIGHT && r != row ==> self@.rows[r] == old(self)@.rows[r],
                forall|c: int| 0 <= c < col ==> self@.rows[row as int][c] == blank@,
                forall|c: int|
                    col <= c < VGA_WIDTH ==> self@.rows[row as int][c] == old(
                        self,
                    )@.rows[row as int][c],
            decreases VGA_WIDTH - col,
        {
            self.buffer.put(row, col, blank);
            col += 1;
        }
        assert(self@.rows =~~= old(self)@.clear_row(row as int).rows);
    }

    /// Blanks the whole display in the current colours. The cursor stays
    /// where it is.
    pub fn clear_screen(&mut self)
        ensures
            old(self)@.wf(),
            final(self)@.wf(),
            final(self)@ == old(self)@.clear_screen(),
    {
        proof {
            use_type_invariant(&*self);
        }
        let mut row: usize = 0;
        while row < VGA_HEIGHT
            invariant
                row <= VGA_HEIGHT,
                self@.wf(),
                self@.column == old(self)@.column,
                self@.attribute == old(self)@.attribute,
                forall|r: int| 0 <= r < row ==> self@.rows[r] == blank_row(self@.attribute),
            decreases VGA_HEIGHT - row,
        {
            self.clear_row(row);
            row += 1;
        }
        assert(self@.rows =~~= old(self)@.clear_screen().rows);
    }

    /// Scroll and reset: moves every row up by one, which drops the top row,
    /// blanks the bottom row in the current colours and puts the cursor at
    /// its start.
    pub fn new_line(&mut self)
        ensures
            old(self)@.wf(),
            final(self)@.wf(),
            final(self)@ == old(self)@.new_line(),
    {
        proof {
            use_type_invariant(&*self);
        }
        let mut row: usize = 1;
        while row < VGA_HEIGHT
            invariant
                1 <= row <= VGA_HEIGHT,
                self@.wf(),
                old(self)@.wf(),
                self@.column == old(self)@.column,
                self@.attribute == old(self)@.attribute,
                forall|r: int| 0 <= r < row - 1 ==> self@.rows[r] == old(self)@.rows[r + 1],
                forall|r: int| row - 1 <= r < VGA_HEIGHT ==> self@.rows[r] == old(self)@.rows[r],
            decreases VGA_HEIGHT - row,
        {
            let ghost before = self@;
            let ghost above: int = row - 1;
            let mut column: usize = 0;
            while column < VGA_WIDTH
                invariant
                    1 <= row < VGA_HEIGHT,
                    column <= VGA_WIDTH,
                    self@.wf(),
                    before.wf(),
                    self@.column == before.column,
                    self@.attribute == before.attribute,
                    above == row - 1,
                    forall|r: int|
                        0 <= r < VGA_HEIGHT && r != above ==> self@.rows[r] == before.rows[r],
                    forall|c: int|
                        0 <= c < column ==> self@.rows[above][c] == before.rows[row as int][c],
                    forall|c: int|
                        column <= c < VGA_WIDTH ==> self@.rows[above][c] == before.rows[above][c],
                decreases VGA_WIDTH - column,
            {
                let cell = self.buffer.get(row, column);
                self.buffer.put(row - 1, column, cell);
                column += 1;
            }
            assert forall|r: int| 0 <= r < row implies self@.rows[r] == old(self)@.rows[r + 1] by {
                if r < above {
                    assert(self@.rows[r] == before.rows[r]);
                } else {
                    assert(self@.rows[above] =~= before.rows[row as int]);
                    assert(before.rows[row as int] == old(self)@.rows[row as int]);
                }
            }
            row += 1;
        }
        self.clear_row(VGA_HEIGHT - 1);
        self.column_position = 0;
        assert(self@.rows =~~= old(self)@.new_line().rows);
    }

    /// Writes one byte. A line feed scrolls and resets. Any other byte is
    /// sanitised and placed at the cursor, after a scroll and reset where
    /// the bottom line is full; the cursor then moves one column on.
    pub fn write_byte(&mut self, byte: u8)
        ensures
            old(self)@.wf(),
            final(self)@.wf(),
            final(self)@ == old(self)@.write_byte(byte),
    {
        proof {
            use_type_invariant(&*self);
        }
        if byte == NEWLINE {
            self.new_line();
        } else {
            if self.column_position >= VGA_WIDTH {
                self.new_line();
            }
            proof {
                use_type_invariant(&*self);
            }
            let ghost line = self@;
            let row = VGA_HEIGHT - 1;
            let col = self.column_position;
            let cell = ScreenChar::new(byte, self.color_code);
            self.buffer.put(row, col, cell);
            self.column_position += 1;
            assert(self@.rows =~~= line.put(byte).rows);
        }
    }

    /// Writes the bytes of a string, one by one and in order.
    pub fn write_string(&mut self, s: &str)
        ensures
            old(self)@.wf(),
            final(self)@.wf(),
            final(self)@ == old(self)@.write_bytes(s.spec_bytes()),
    {
        proof {
            use_type_invariant(&*self);
        }
        let bytes = s.as_bytes();
        let mut index: usize = 0;
        while index < bytes.len()
            invariant
                index <= bytes.len(),
                old(self)@.wf(),
                self@.wf(),
                self@ == old(self)@.write_bytes(bytes@.take(index as int)),
            decreases bytes.len() - index,
        {
            assert(bytes@.take(index + 1).drop_last() =~= bytes@.take(index as int));
            self.write_byte(bytes[index]);
            index += 1;
        }
        assert(bytes@.take(bytes.len() as int) =~= bytes@);
    }
}

/// `core::fmt::Error`, the error of a formatting sink. It has no contents.
#[verifier::external_type_specification]
#[verifier::external_body]
pub struct ExFmtError(core::fmt::Error);

impl core::fmt::Write for Writer {
    /// Writes the bytes of a string, as [`Writer::write_string`] does. It
    /// never fails.
    fn write_str(&mut self, s: &str) -> (done: core::fmt::Result)
        ensures
            done is Ok,
            old(self)@.wf(),
            final(self)@.wf(),
            final(self)@ == old(self)@.write_bytes(s.spec_bytes()),
    {
        self.write_string(s);
        Ok(())
    }
}

} // verus!
