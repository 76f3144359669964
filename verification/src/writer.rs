//! The writer: it places characters in the last row, wraps at the last column and
//! scrolls the grid up when a line ends.

use crate::buffer::{Buffer, ScreenChar, BUFFER_HEIGHT, BUFFER_WIDTH};
use crate::color::ColorCode;
use crate::screen::{
    blank_cell, blank_row, row_writes, shift_writes, Screen, BLANK, LAST_ROW, NEWLINE, PLACEHOLDER,
};
use vstd::prelude::*;
use vstd::utf8::encode_utf8;

verus! {

/// The writer of the console. It owns the handle to the grid, so that nothing else
/// writes to the cells while it lives.
pub struct Writer<'a> {
    /// The column of the last row at which the next character is placed.
    column_position: usize,
    /// The attribute that characters are written with.
    color_code: ColorCode,
    /// The grid that is written to.
    buffer: Buffer<'a>,
    /// How many times this writer has scrolled the grid.
    scrolls: Ghost<nat>,
}

/// `core::fmt::Error`: the error of a formatted write. It carries nothing.
#[verifier::external_type_specification]
#[verifier::external_body]
pub struct ExFmtError(core::fmt::Error);

impl<'a> View for Writer<'a> {
    type V = Screen;

    closed spec fn view(&self) -> Screen {
        Screen {
            rows: self.buffer@,
            column: self.column_position as int,
            attribute: self.color_code,
            scrolls: self.scrolls@,
            writes: self.buffer.writes(),
        }
    }
}

impl<'a> Writer<'a> {
    #[verifier::type_invariant]
    spec fn column_in_range(self) -> bool {
        self.column_position <= BUFFER_WIDTH
    }

    /// A writer on the given grid, with the cursor at the start of the last row.
    pub fn new(color_code: ColorCode, buffer: Buffer<'a>) -> (writer: Writer<'a>)
        ensures
            writer@ == (Screen {
                rows: buffer@,
                column: 0,
                attribute: color_code,
                scrolls: 0,
                writes: buffer.writes(),
            }),
            writer@.wf(),
    {
        proof {
            buffer.lemma_view_shape();
        }
        Writer { column_position: 0, color_code, buffer, scrolls: Ghost(0) }
    }

    /// Blanks one row in the current attribute.
    pub fn clear_row(&mut self, row: usize)
        requires
            row < BUFFER_HEIGHT,
        ensures
            final(self)@ == old(self)@.clear_row(row as int),
            final(self)@.wf(),
    {
        proof {
            use_type_invariant(&*self);
            self.buffer.lemma_view_shape();
        }
        let ghost before = self@;
        let blank = ScreenChar { ascii_character: BLANK, color_code: self.color_code };
        let mut col: usize = 0;
        while col < BUFFER_WIDTH
            invariant
                row < BUFFER_HEIGHT,
                col <= BUFFER_WIDTH,
                before.wf(),
                self@.wf(),
                blank == blank_cell(before.attribute),
                self@.attribute == before.attribute,
                self@.column == before.column,
                self@.scrolls == before.scrolls,
                forall|r: int|
                    0 <= r < BUFFER_HEIGHT && r != row ==> self@.rows[r] == before.rows[r],
                forall|c: int| 0 <= c < col ==> self@.rows[row as int][c] == blank,
                forall|c: int|
                    col <= c < BUFFER_WIDTH ==> self@.rows[row as int][c]
                        == before.rows[row as int][c],
                self@.writes == before.writes + row_writes(
                    row as int,
                    blank_row(before.attribute),
                ).take(col as int),
            decreases BUFFER_WIDTH - col,
        {
            self.buffer.write(row, col, blank);
            col += 1;
            assert(self@.writes =~= before.writes + row_writes(
                row as int,
                blank_row(before.attribute),
            ).take(col as int));
        }
        assert(self@.rows =~~= before.clear_row(row as int).rows);
        assert(self@.writes =~= before.clear_row(row as int).writes);
    }

    /// Scrolls the grid up by one row: every row takes the cells of the row below it, the
    /// last row is blanked and the cursor goes to its start.
    pub fn new_line(&mut self)
        ensures
            final(self)@ == old(self)@.new_line(),
            final(self)@.wf(),
    {
        proof {
            use_type_invariant(&*self);
            self.buffer.lemma_view_shape();
        }
        let ghost before = self@;
        let mut row: usize = 1;
        while row < BUFFER_HEIGHT
            invariant
                1 <= row <= BUFFER_HEIGHT,
                before.wf(),
                self@.wf(),
                self@.attribute == before.attribute,
                self@.column == before.column,
                self@.scrolls == before.scrolls,
                forall|r: int| 0 <= r < row - 1 ==> self@.rows[r] == before.rows[r + 1],
                forall|r: int| row - 1 <= r < BUFFER_HEIGHT ==> self@.rows[r] == before.rows[r],
                self@.writes == before.writes + shift_writes(before.rows, row as int),
            decreases BUFFER_HEIGHT - row,
        {
            let ghost above: int = row - 1;
            let ghost moved = row_writes(above, before.rows[row as int]);
            let mut col: usize = 0;
            while col < BUFFER_WIDTH
                invariant
                    1 <= row < BUFFER_HEIGHT,
                    above == row - 1,
                    col <= BUFFER_WIDTH,
                    before.wf(),
                    self@.wf(),
                    self@.attribute == before.attribute,
                    self@.column == before.column,
                    self@.scrolls == before.scrolls,
                    forall|r: int| 0 <= r < row - 1 ==> self@.rows[r] == before.rows[r + 1],
                    forall|r: int| row <= r < BUFFER_HEIGHT ==> self@.rows[r] == before.rows[r],
                    forall|c: int|
                        0 <= c < col ==> self@.rows[above][c] == before.rows[row as int][c],
                    forall|c: int|
                        col <= c < BUFFER_WIDTH ==> self@.rows[above][c] == before.rows[above][c],
                    moved == row_writes(above, before.rows[row as int]),
                    self@.writes == before.writes + shift_writes(before.rows, row as int)
                        + moved.take(col as int),
                decreases BUFFER_WIDTH - col,
            {
                let character = self.buffer.read(row, col);
                self.buffer.write(row - 1, col, character);
                col += 1;
                assert(self@.writes =~= before.writes + shift_writes(before.rows, row as int)
                    + moved.take(col as int));
            }
            assert(self@.rows[above] =~= before.rows[row as int]);
            assert(moved.take(col as int) =~= moved);
            row += 1;
            assert(self@.writes =~= before.writes + shift_writes(before.rows, row as int));
        }
        self.clear_row(LAST_ROW);
        self.column_position = 0;
        self.scrolls = Ghost(self.scrolls@ + 1);
        assert(self@.rows =~= before.new_line().rows);
        assert(self@.writes =~= before.new_line().writes);
    }

    /// Writes one byte as it is: a newline scrolls; any other byte is placed at the
    /// cursor, after a scroll if the last row is full.
    pub fn write_byte(&mut self, byte: u8)
        ensures
            final(self)@ == old(self)@.write_byte(byte),
            final(self)@.wf(),
    {
        proof {
            use_type_invariant(&*self);
            self.buffer.lemma_view_shape();
        }
        if byte == NEWLINE {
            self.new_line();
        } else {
            if self.column_position >= BUFFER_WIDTH {
                self.new_line();
            }
            let row: usize = LAST_ROW;
            let col: usize = self.column_position;
            let color_code = self.color_code;
            self.buffer.write(row, col, ScreenChar { ascii_character: byte, color_code });
            self.column_position += 1;
        }
    }

    /// Writes the bytes of a text in order. A byte that is neither printable nor a
    /// newline is shown as the placeholder.
    pub fn write_bytes(&mut self, bytes: &[u8])
        ensures
            final(self)@ == old(self)@.write_bytes(bytes@),
            final(self)@.wf(),
    {
        proof {
            use_type_invariant(&*self);
            self.buffer.lemma_view_shape();
        }
        let ghost before = self@;
        let mut i: usize = 0;
        while i < bytes.len()
            invariant
                i <= bytes.len(),
                self@.wf(),
                self@ == before.write_bytes(bytes@.take(i as int)),
            decreases bytes.len() - i,
        {
            let byte: u8 = bytes[i];
            proof {
                assert(bytes@.take(i + 1).drop_last() =~= bytes@.take(i as int));
            }
            match byte {
                0x20..=0x7e | 0x0a => self.write_byte(byte),
                _ => self.write_byte(PLACEHOLDER),
            }
            i += 1;
        }
        assert(bytes@.take(i as int) =~= bytes@);
    }

    /// Writes a string: the bytes of its UTF-8 encoding in order, as `write_bytes` does.
    pub fn write_string(&mut self, s: &str)
        ensures
            final(self)@ == old(self)@.write_bytes(encode_utf8(s@)),
            final(self)@.wf(),
    {
        self.write_bytes(s.as_bytes());
    }

    /// The column at which the next character is placed.
    pub fn column_position(&self) -> (column: usize)
        ensures
            column == self@.column,
            column <= BUFFER_WIDTH,
            self@.wf(),
    {
        proof {
            use_type_invariant(self);
            self.buffer.lemma_view_shape();
        }
        self.column_position
    }

    /// The attribute that characters are written with.
    pub fn color_code(&self) -> (code: ColorCode)
        ensures
            code == self@.attribute,
            self@.wf(),
    {
        proof {
            use_type_invariant(self);
            self.buffer.lemma_view_shape();
        }
        self.color_code
    }

    /// The grid that the writer writes to.
    pub fn buffer(&self) -> (buffer: &Buffer<'a>)
        ensures
            buffer@ == self@.rows,
            self@.wf(),
    {
        proof {
            use_type_invariant(self);
            self.buffer.lemma_view_shape();
        }
        &self.buffer
    }
}

impl<'a> core::fmt::Write for Writer<'a> {
    /// Takes one fragment of a formatted text and writes it as `write_string` does. It
    /// never fails.
    fn write_str(&mut self, s: &str) -> (result: Result<(), core::fmt::Error>)
        ensures
            result.is_ok(),
            final(self)@ == old(self)@.write_bytes(encode_utf8(s@)),
            final(self)@.wf(),
    {
        self.write_string(s);
        Ok(())
    }
}

} // verus!
