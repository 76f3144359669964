//! What the console shows, as a mathematical value: the grid of cells, the cursor and
//! the current attribute, and how the writing of bytes changes them.

use crate::buffer::{CellWrite, ScreenChar, BUFFER_HEIGHT, BUFFER_WIDTH};
use crate::color::ColorCode;
use vstd::prelude::*;

verus! {

/// The byte that ends a line.
pub const NEWLINE: u8 = 0x0a;

/// The character of a blank cell.
pub const BLANK: u8 = 0x20;

/// The byte shown in place of one that cannot be shown.
pub const PLACEHOLDER: u8 = 0xfe;

/// The row that is written to: the last one.
pub const LAST_ROW: usize = BUFFER_HEIGHT - 1;

/// Whether a byte is in the printable range.
pub open spec fn is_printable(byte: u8) -> bool {
    0x20 <= byte <= 0x7e
}

/// The byte that is written for a byte of a text: the byte itself if it is printable or
/// ends a line, the placeholder otherwise.
pub open spec fn sanitize(byte: u8) -> u8 {
    if is_printable(byte) || byte == NEWLINE {
        byte
    } else {
        PLACEHOLDER
    }
}

/// A blank cell in the given attribute.
pub open spec fn blank_cell(attribute: ColorCode) -> ScreenChar {
    ScreenChar { ascii_character: BLANK, color_code: attribute }
}

/// A row of blank cells in the given attribute.
pub open spec fn blank_row(attribute: ColorCode) -> Seq<ScreenChar> {
    Seq::new(BUFFER_WIDTH as nat, |col: int| blank_cell(attribute))
}

/// The writes that place `cells` in the row `row`, column by column from the left.
pub open spec fn row_writes(row: int, cells: Seq<ScreenChar>) -> Seq<CellWrite> {
    Seq::new(cells.len(), |col: int| CellWrite { row, col, cell: cells[col] })
}

/// The writes of a scroll that move the rows from 1 up to, but not including, `upto`
/// up by one: row after row from the top, each row column by column.
pub open spec fn shift_writes(rows: Seq<Seq<ScreenChar>>, upto: int) -> Seq<CellWrite>
    decreases upto,
{
    if upto <= 1 {
        Seq::empty()
    } else {
        shift_writes(rows, upto - 1) + row_writes(upto - 2, rows[upto - 1])
    }
}

/// The state of the console.
pub struct Screen {
    /// The cells, row by row from the top.
    pub rows: Seq<Seq<ScreenChar>>,
    /// The column of the last row at which the next character is placed.
    pub column: int,
    /// The attribute that characters are written with.
    pub attribute: ColorCode,
    /// How many times the grid has scrolled.
    pub scrolls: nat,
    /// The writes that went to the hardware, in the order in which they were made.
    pub writes: Seq<CellWrite>,
}

impl Screen {
    /// The grid has its fixed shape and the cursor is within or just past the last row.
    pub open spec fn wf(self) -> bool {
        &&& self.rows.len() == BUFFER_HEIGHT
        &&& forall|row: int|
            0 <= row < BUFFER_HEIGHT ==> (#[trigger] self.rows[row]).len() == BUFFER_WIDTH
        &&& 0 <= self.column <= BUFFER_WIDTH
    }

    /// The screen with one row blanked in the current attribute, column by column from
    /// the left.
    pub open spec fn clear_row(self, row: int) -> Screen {
        Screen {
            rows: self.rows.update(row, blank_row(self.attribute)),
            writes: self.writes + row_writes(row, blank_row(self.attribute)),
            ..self
        }
    }

    /// The screen after one scroll: the top row is gone, every other row has moved up by
    /// one, the last row is blank and the cursor is at its start. The rows are moved from
    /// the top down, and the last row is blanked after that.
    pub open spec fn new_line(self) -> Screen {
        Screen {
            rows: self.rows.drop_first().push(blank_row(self.attribute)),
            column: 0,
            attribute: self.attribute,
            scrolls: self.scrolls + 1,
            writes: self.writes + shift_writes(self.rows, BUFFER_HEIGHT as int) + row_writes(
                LAST_ROW as int,
                blank_row(self.attribute),
            ),
        }
    }

    /// The screen with `byte` placed at the cursor by one write, in the current
    /// attribute, and the cursor moved one column on.
    pub open spec fn put(self, byte: u8) -> Screen {
        let cell = ScreenChar { ascii_character: byte, color_code: self.attribute };
        Screen {
            rows: self.rows.update(
                LAST_ROW as int,
                self.rows[LAST_ROW as int].update(self.column, cell),
            ),
            column: self.column + 1,
            writes: self.writes.push(CellWrite { row: LAST_ROW as int, col: self.column, cell }),
            ..self
        }
    }

    /// The screen after one byte is written: a newline scrolls; any other byte is placed
    /// at the cursor, after a scroll if the last row is full.
    pub open spec fn write_byte(self, byte: u8) -> Screen {
        if byte == NEWLINE {
            self.new_line()
        } else if self.column >= BUFFER_WIDTH {
            self.new_line().put(byte)
        } else {
            self.put(byte)
        }
    }

    /// The screen after the bytes of a text are written in order, each one sanitized.
    pub open spec fn write_bytes(self, bytes: Seq<u8>) -> Screen
        decreases bytes.len(),
    {
        if bytes.len() == 0 {
            self
        } else {
            self.write_bytes(bytes.drop_last()).write_byte(sanitize(bytes.last()))
        }
    }
}

/// Whether a byte may stand in a cell under the policy of the text writer: it is
/// printable or the placeholder.
pub open spec fn is_displayable(byte: u8) -> bool {
    is_printable(byte) || byte == PLACEHOLDER
}

impl Screen {
    /// Every cell of the grid holds a displayable character.
    pub open spec fn displayable(self) -> bool {
        forall|row: int, col: int|
            0 <= row < BUFFER_HEIGHT && 0 <= col < BUFFER_WIDTH ==> is_displayable(
                (#[trigger] self.rows[row][col]).ascii_character,
            )
    }

    /// The writes that place `bytes` in the last row from the cursor on, with no scroll.
    pub open spec fn line_writes(self, bytes: Seq<u8>) -> Seq<CellWrite> {
        Seq::new(
            bytes.len(),
            |i: int|
                CellWrite {
                    row: LAST_ROW as int,
                    col: self.column + i,
                    cell: ScreenChar {
                        ascii_character: sanitize(bytes[i]),
                        color_code: self.attribute,
                    },
                },
        )
    }

    /// The last row after `bytes` were placed in it from the cursor on, with no scroll.
    pub open spec fn last_row_with(self, bytes: Seq<u8>) -> Seq<ScreenChar> {
        Seq::new(
            BUFFER_WIDTH as nat,
            |col: int|
                if self.column <= col < self.column + bytes.len() {
                    ScreenChar {
                        ascii_character: sanitize(bytes[col - self.column]),
                        color_code: self.attribute,
                    }
                } else {
                    self.rows[LAST_ROW as int][col]
                },
        )
    }
}

/// The rows from 1 up to `upto` are moved by one write for each of their cells.
pub proof fn lemma_shift_writes_len(rows: Seq<Seq<ScreenChar>>, upto: int)
    requires
        1 <= upto <= rows.len(),
        forall|row: int| 0 <= row < rows.len() ==> (#[trigger] rows[row]).len() == BUFFER_WIDTH,
    ensures
        shift_writes(rows, upto).len() == (upto - 1) * BUFFER_WIDTH,
    decreases upto,
{
    if upto > 1 {
        lemma_shift_writes_len(rows, upto - 1);
    }
}

/// A scroll moves every row up by one and leaves the last row blank: each of the rows
/// above the last holds what the row below it held, the last row is blank in the current
/// attribute, and the cursor is at column 0. It writes every cell of the grid once, after
/// the writes made before.
pub proof fn lemma_new_line_shifts_rows(screen: Screen)
    requires
        screen.wf(),
    ensures
        screen.new_line().wf(),
        screen.writes.is_prefix_of(screen.new_line().writes),
        screen.new_line().writes.len() == screen.writes.len() + BUFFER_HEIGHT * BUFFER_WIDTH,
        forall|row: int|
            0 <= row < LAST_ROW ==> #[trigger] screen.new_line().rows[row] == screen.rows[row + 1],
        screen.new_line().rows[LAST_ROW as int] == blank_row(screen.attribute),
        forall|col: int|
            0 <= col < BUFFER_WIDTH ==> #[trigger] screen.new_line().rows[LAST_ROW as int][col]
                == blank_cell(screen.attribute),
        screen.new_line().column == 0,
        screen.new_line().attribute == screen.attribute,
        screen.new_line().scrolls == screen.scrolls + 1,
{
    lemma_shift_writes_len(screen.rows, BUFFER_HEIGHT as int);
}

/// Writing one byte keeps the shape of the grid and the range of the cursor, never changes
/// the attribute, and only adds to the writes made before.
pub proof fn lemma_write_byte_wf(screen: Screen, byte: u8)
    requires
        screen.wf(),
    ensures
        screen.write_byte(byte).wf(),
        screen.write_byte(byte).attribute == screen.attribute,
        screen.write_byte(byte).scrolls >= screen.scrolls,
        screen.writes.is_prefix_of(screen.write_byte(byte).writes),
{
    lemma_new_line_shifts_rows(screen);
}

/// Writing a text keeps the shape of the grid and the range of the cursor, never changes
/// the attribute, and only adds to the writes made before.
pub proof fn lemma_write_bytes_wf(screen: Screen, bytes: Seq<u8>)
    requires
        screen.wf(),
    ensures
        screen.write_bytes(bytes).wf(),
        screen.write_bytes(bytes).attribute == screen.attribute,
        screen.write_bytes(bytes).scrolls >= screen.scrolls,
        screen.writes.is_prefix_of(screen.write_bytes(bytes).writes),
    decreases bytes.len(),
{
    if bytes.len() > 0 {
        lemma_write_bytes_wf(screen, bytes.drop_last());
        lemma_write_byte_wf(screen.write_bytes(bytes.drop_last()), sanitize(bytes.last()));
    }
}

/// Writing two texts one after the other is writing their concatenation.
pub proof fn lemma_write_bytes_concat(screen: Screen, first: Seq<u8>, second: Seq<u8>)
    ensures
        screen.write_bytes(first + second) == screen.write_bytes(first).write_bytes(second),
    decreases second.len(),
{
    if second.len() == 0 {
        assert(first + second =~= first);
    } else {
        assert((first + second).drop_last() =~= first + second.drop_last());
        assert((first + second).last() == second.last());
        lemma_write_bytes_concat(screen, first, second.drop_last());
    }
}

/// Writing a text of one byte is writing that byte, sanitized.
pub proof fn lemma_write_bytes_single(screen: Screen, byte: u8)
    ensures
        screen.write_bytes(seq![byte]) == screen.write_byte(sanitize(byte)),
{
    let bytes = seq![byte];
    assert(bytes.drop_last() =~= Seq::<u8>::empty());
    assert(screen.write_bytes(bytes.drop_last()) == screen);
    assert(bytes.last() == byte);
}

/// The bytes of a text are written in order: the first byte, sanitized, and then the rest.
pub proof fn lemma_write_bytes_front(screen: Screen, bytes: Seq<u8>)
    requires
        bytes.len() > 0,
    ensures
        screen.write_bytes(bytes) == screen.write_byte(sanitize(bytes[0])).write_bytes(
            bytes.drop_first(),
        ),
{
    assert(bytes =~= seq![bytes[0]] + bytes.drop_first());
    lemma_write_bytes_concat(screen, seq![bytes[0]], bytes.drop_first());
    lemma_write_bytes_single(screen, bytes[0]);
}

/// A text without a newline that fits in what is left of the last row is placed there
/// with no scroll and by one write for each byte, from left to right: only the cells from
/// the cursor on change, and the cursor ends just behind the text. With the cursor at
/// column 0 and a text of `BUFFER_WIDTH` bytes, the cursor ends at `BUFFER_WIDTH` and the
/// grid has not scrolled.
pub proof fn lemma_write_within_line(screen: Screen, bytes: Seq<u8>)
    requires
        screen.wf(),
        screen.column + bytes.len() <= BUFFER_WIDTH,
        forall|i: int| 0 <= i < bytes.len() ==> bytes[i] != NEWLINE,
    ensures
        screen.write_bytes(bytes).scrolls == screen.scrolls,
        screen.write_bytes(bytes).column == screen.column + bytes.len(),
        screen.write_bytes(bytes).attribute == screen.attribute,
        screen.write_bytes(bytes).rows == screen.rows.update(
            LAST_ROW as int,
            screen.last_row_with(bytes),
        ),
        screen.write_bytes(bytes).writes == screen.writes + screen.line_writes(bytes),
    decreases bytes.len(),
{
    if bytes.len() == 0 {
        assert(screen.last_row_with(bytes) =~= screen.rows[LAST_ROW as int]);
        assert(screen.rows.update(LAST_ROW as int, screen.last_row_with(bytes)) =~= screen.rows);
        assert(screen.writes + screen.line_writes(bytes) =~= screen.writes);
    } else {
        let front = bytes.drop_last();
        lemma_write_within_line(screen, front);
        let mid = screen.write_bytes(front);
        let byte = sanitize(bytes.last());
        assert(byte != NEWLINE);
        assert(mid.write_byte(byte) == mid.put(byte));
        assert(mid.put(byte).rows[LAST_ROW as int] =~= screen.last_row_with(bytes));
        assert(mid.put(byte).rows =~= screen.rows.update(
            LAST_ROW as int,
            screen.last_row_with(bytes),
        ));
        assert(mid.put(byte).writes =~= screen.writes + screen.line_writes(bytes));
    }
}

/// A byte other than a newline that is written when the last row is full scrolls the
/// grid exactly once and is then placed at the start of the blank last row.
pub proof fn lemma_write_past_line_end(screen: Screen, byte: u8)
    requires
        screen.wf(),
        screen.column == BUFFER_WIDTH,
        byte != NEWLINE,
    ensures
        screen.write_byte(byte) == screen.new_line().put(byte),
        screen.write_byte(byte).scrolls == screen.scrolls + 1,
        screen.write_byte(byte).column == 1,
        screen.write_byte(byte).rows[LAST_ROW as int][0] == (ScreenChar {
            ascii_character: byte,
            color_code: screen.attribute,
        }),
        forall|col: int|
            1 <= col < BUFFER_WIDTH ==> #[trigger] screen.write_byte(
                byte,
            ).rows[LAST_ROW as int][col] == blank_cell(screen.attribute),
        forall|row: int|
            0 <= row < LAST_ROW ==> #[trigger] screen.write_byte(byte).rows[row] == screen.rows[row
                + 1],
{
    lemma_new_line_shifts_rows(screen);
}

/// The wrap at the last column. A line of `BUFFER_WIDTH` printable bytes written from
/// column 0 fills the last row without a scroll and leaves the cursor at `BUFFER_WIDTH`.
/// One more printable byte then scrolls exactly once, which moves the line up by one row,
/// and is placed at column 0 of the last row.
pub proof fn lemma_wrap_boundary(screen: Screen, line: Seq<u8>, next: u8)
    requires
        screen.wf(),
        screen.column == 0,
        line.len() == BUFFER_WIDTH,
        forall|i: int| 0 <= i < line.len() ==> is_printable(#[trigger] line[i]),
        is_printable(next),
    ensures
        screen.write_bytes(line).column == BUFFER_WIDTH,
        screen.write_bytes(line).scrolls == screen.scrolls,
        screen.write_bytes(line).writes == screen.writes + screen.line_writes(line),
        forall|row: int|
            0 <= row < LAST_ROW ==> #[trigger] screen.write_bytes(line).rows[row]
                == screen.rows[row],
        forall|col: int|
            0 <= col < BUFFER_WIDTH ==> #[trigger] screen.write_bytes(
                line,
            ).rows[LAST_ROW as int][col] == (ScreenChar {
                ascii_character: line[col],
                color_code: screen.attribute,
            }),
        screen.write_bytes(line.push(next)).scrolls == screen.scrolls + 1,
        screen.write_bytes(line.push(next)).column == 1,
        screen.write_bytes(line.push(next)).rows[LAST_ROW as int - 1] == screen.write_bytes(
            line,
        ).rows[LAST_ROW as int],
        screen.write_bytes(line.push(next)).rows[LAST_ROW as int][0] == (ScreenChar {
            ascii_character: next,
            color_code: screen.attribute,
        }),
{
    let full = screen.write_bytes(line);
    lemma_write_within_line(screen, line);
    lemma_write_bytes_wf(screen, line);
    assert(line.push(next).drop_last() =~= line);
    assert(line.push(next).last() == next);
    assert(screen.write_bytes(line.push(next)) == full.write_byte(next));
    lemma_write_past_line_end(full, next);
}

/// The byte written for a byte of a text is a newline or displayable: no other byte
/// reaches a cell.
pub proof fn lemma_sanitize_displayable(byte: u8)
    ensures
        sanitize(byte) == NEWLINE || is_displayable(sanitize(byte)),
        is_printable(byte) || byte == NEWLINE ==> sanitize(byte) == byte,
        !is_printable(byte) && byte != NEWLINE ==> sanitize(byte) == PLACEHOLDER,
{
}

/// On a grid whose cells are all displayable, the writing of any text leaves every cell
/// displayable.
pub proof fn lemma_write_bytes_displayable(screen: Screen, bytes: Seq<u8>)
    requires
        screen.wf(),
        screen.displayable(),
    ensures
        screen.write_bytes(bytes).displayable(),
    decreases bytes.len(),
{
    if bytes.len() > 0 {
        let mid = screen.write_bytes(bytes.drop_last());
        let byte = sanitize(bytes.last());
        lemma_write_bytes_displayable(screen, bytes.drop_last());
        lemma_write_bytes_wf(screen, bytes.drop_last());
        lemma_new_line_shifts_rows(mid);
        assert(mid.new_line().displayable());
        if byte != NEWLINE {
            let base = if mid.column >= BUFFER_WIDTH { mid.new_line() } else { mid };
            assert(base.displayable());
            assert(mid.write_byte(byte) == base.put(byte));
            assert(is_displayable(byte));
            assert(base.put(byte).displayable());
        }
    }
}

} // verus!
