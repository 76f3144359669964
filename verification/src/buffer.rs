//! The grid of hardware character cells and the ordering-safe access to it.

use crate::color::ColorCode;
use volatile::Volatile;
use vstd::prelude::*;

verus! {

/// The number of rows of the grid.
pub const BUFFER_HEIGHT: usize = 25;

/// The number of columns of the grid.
pub const BUFFER_WIDTH: usize = 80;

/// One character cell: a character code and the attribute it is shown with.
#[derive(Debug, Clone, Copy, PartialEq, Eq, Structural)]
pub struct ScreenChar {
    pub ascii_character: u8,
    pub color_code: ColorCode,
}

impl ScreenChar {
    /// The two bytes of the cell as the hardware lays them out: the character code
    /// first, the attribute second.
    pub open spec fn spec_to_bytes(self) -> Seq<u8> {
        seq![self.ascii_character, self.color_code.0]
    }

    /// The cell that two hardware bytes stand for.
    pub open spec fn spec_from_bytes(bytes: Seq<u8>) -> ScreenChar {
        ScreenChar { ascii_character: bytes[0], color_code: ColorCode(bytes[1]) }
    }

    /// The two bytes of the cell in hardware order.
    pub fn to_bytes(self) -> (bytes: [u8; 2])
        ensures
            bytes@ == self.spec_to_bytes(),
            ScreenChar::spec_from_bytes(bytes@) == self,
        no_unwind
    {
        let bytes: [u8; 2] = [self.ascii_character, self.color_code.0];
        assert(bytes@ =~= self.spec_to_bytes());
        bytes
    }

    /// The cell that two bytes in hardware order stand for.
    pub fn from_bytes(bytes: [u8; 2]) -> (cell: ScreenChar)
        ensures
            cell == ScreenChar::spec_from_bytes(bytes@),
            cell.spec_to_bytes() == bytes@,
    {
        let cell = ScreenChar { ascii_character: bytes[0], color_code: ColorCode(bytes[1]) };
        assert(cell.spec_to_bytes() =~= bytes@);
        cell
    }
}

/// `volatile::Volatile<T>`: a value that is only read and written by volatile accesses.
/// Nothing inside a value of it is visible here.
#[verifier::external_type_specification]
#[verifier::external_body]
#[verifier::reject_recursive_types(T)]
pub struct ExVolatile<T: Copy>(Volatile<T>);

/// The two bytes that a hardware cell holds.
pub uninterp spec fn cell_bytes(cell: Volatile<[u8; 2]>) -> Seq<u8>;

/// `Volatile::read`: one volatile read of the cell. The claim is that it returns a copy
/// of the bytes the cell holds and leaves the cell as it was.
#[verifier::external_body]
fn volatile_read(cell: &Volatile<[u8; 2]>) -> (bytes: [u8; 2])
    ensures
        bytes@ == cell_bytes(*cell),
{
    cell.read()
}

/// `Volatile::write`: one volatile write to the cell. The claim is that afterwards the
/// cell holds exactly the bytes given.
#[verifier::external_body]
fn volatile_write(cell: &mut Volatile<[u8; 2]>, bytes: [u8; 2])
    ensures
        cell_bytes(*final(cell)) == bytes@,
    no_unwind
{
    cell.write(bytes)
}

/// The grid as the hardware lays it out: row after row, each cell two bytes, the
/// character code first and the attribute second.
pub type CellGrid = [[Volatile<[u8; 2]>; BUFFER_WIDTH]; BUFFER_HEIGHT];

/// What a grid of hardware cells shows: `BUFFER_HEIGHT` rows of `BUFFER_WIDTH` cells.
pub open spec fn grid_view(cells: CellGrid) -> Seq<Seq<ScreenChar>> {
    Seq::new(
        BUFFER_HEIGHT as nat,
        |row: int|
            Seq::new(
                BUFFER_WIDTH as nat,
                |col: int| ScreenChar::spec_from_bytes(cell_bytes(cells@[row]@[col])),
            ),
    )
}

/// One write to a cell of the grid, as the hardware sees it.
pub struct CellWrite {
    pub row: int,
    pub col: int,
    pub cell: ScreenChar,
}

/// The exclusive handle to the grid of hardware cells. Every access to a cell after the
/// grid was bound goes through `read` and `write`.
pub struct Buffer<'a> {
    /// The cells of the hardware.
    chars: &'a mut CellGrid,
    /// The writes made through this handle, in the order in which they were made.
    writes: Ghost<Seq<CellWrite>>,
}

impl<'a> View for Buffer<'a> {
    type V = Seq<Seq<ScreenChar>>;

    /// The cells that the grid shows, row by row.
    closed spec fn view(&self) -> Seq<Seq<ScreenChar>> {
        grid_view(*self.chars)
    }
}

impl<'a> Buffer<'a> {
    /// The writes that went to the hardware through this handle since it was bound, in
    /// program order: one entry for each call of `write`.
    pub closed spec fn writes(&self) -> Seq<CellWrite> {
        self.writes@
    }

    /// Binds the handle to a grid of cells, which it keeps for as long as it lives.
    pub fn new(chars: &'a mut CellGrid) -> (buffer: Buffer<'a>)
        ensures
            buffer@ == grid_view(*old(chars)),
            buffer.writes() == Seq::<CellWrite>::empty(),
    {
        Buffer { chars, writes: Ghost(Seq::empty()) }
    }

    /// The view of a buffer has the shape of the grid.
    pub proof fn lemma_view_shape(&self)
        ensures
            self@.len() == BUFFER_HEIGHT,
            forall|row: int|
                0 <= row < BUFFER_HEIGHT ==> (#[trigger] self@[row]).len() == BUFFER_WIDTH,
    {
    }

    /// Reads the cell at `(row, col)` by one volatile read. Nothing is written.
    pub fn read(&self, row: usize, col: usize) -> (cell: ScreenChar)
        requires
            row < BUFFER_HEIGHT,
            col < BUFFER_WIDTH,
        ensures
            cell == self@[row as int][col as int],
    {
        ScreenChar::from_bytes(volatile_read(&self.chars[row][col]))
    }

    /// Writes `cell` at `(row, col)` by one volatile write, which is the next entry of
    /// `writes`; no other cell changes.
    pub fn write(&mut self, row: usize, col: usize, cell: ScreenChar)
        requires
            row < BUFFER_HEIGHT,
            col < BUFFER_WIDTH,
        ensures
            final(self)@ == old(self)@.update(
                row as int,
                old(self)@[row as int].update(col as int, cell),
            ),
            final(self).writes() == old(self).writes().push(
                CellWrite { row: row as int, col: col as int, cell },
            ),
        no_unwind
    {
        volatile_write(&mut self.chars[row][col], cell.to_bytes());
        self.writes = Ghost(
            self.writes@.push(CellWrite { row: row as int, col: col as int, cell }),
        );
        assert(self@ =~~= old(self)@.update(
            row as int,
            old(self)@[row as int].update(col as int, cell),
        ));
    }
}

} // verus!
