use vstd::prelude::*;

verus! {

/// A foreground color, mirroring the palette common terminals accept:
/// sixteen named colors, a 24-bit color, and an ANSI palette index.
#[derive(Clone, Copy, PartialEq, Eq, Structural, Debug)]
pub enum Color {
    Reset,
    Black,
    DarkGrey,
    Red,
    DarkRed,
    Green,
    DarkGreen,
    Yellow,
    DarkYellow,
    Blue,
    DarkBlue,
    Magenta,
    DarkMagenta,
    Cyan,
    DarkCyan,
    White,
    Grey,
    Rgb { r: u8, g: u8, b: u8 },
    AnsiValue(u8),
}

/// One styled character: the character itself, its foreground color, and
/// whether it is drawn bold.
#[derive(Clone, Copy, PartialEq, Eq, Structural, Debug)]
pub struct Cell {
    pub ch: char,
    pub fg: Color,
    pub bold: bool,
}

impl Cell {
    /// The default blank cell: a space drawn in white, not bold.
    pub open spec fn blank_spec() -> Cell {
        Cell { ch: ' ', fg: Color::White, bold: false }
    }

    /// Build the default blank cell.
    pub fn blank() -> (c: Cell)
        ensures
            c == Cell::blank_spec(),
    {
        Cell { ch: ' ', fg: Color::White, bold: false }
    }
}

/// A dense grid of cells with fixed dimensions, stored column-major:
/// the outer dimension is columns, so a run of text placed at `(col, row)`
/// advances through consecutive columns of the same row.
#[derive(Clone, Debug)]
pub struct Frame {
    pub cols: usize,
    pub rows: usize,
    pub grid: Vec<Vec<Cell>>,
}

impl Frame {
    /// The stored cells, one inner sequence per column.
    pub open spec fn grid_view(self) -> Seq<Seq<Cell>> {
        Seq::new(self.grid@.len(), |c: int| self.grid@[c]@)
    }

    /// The grid really has `cols` columns of `rows` cells each.
    pub open spec fn wf(self) -> bool {
        &&& self.grid_view().len() == self.cols
        &&& forall|c: int|
            0 <= c < self.cols ==> (#[trigger] self.grid_view()[c]).len() == self.rows
    }

    /// The cell stored at column `c`, row `r`.
    pub open spec fn cell(self, c: int, r: int) -> Cell {
        self.grid_view()[c][r]
    }

    /// Every cell in range holds the default blank cell.
    pub open spec fn all_blank(self) -> bool {
        forall|c: int, r: int|
            0 <= c < self.cols && 0 <= r < self.rows ==> self.cell(c, r) == Cell::blank_spec()
    }

    /// `self` and `other` have the same dimensions and the same cell at
    /// every coordinate in range.
    pub open spec fn same_cells(self, other: Frame) -> bool {
        &&& self.cols == other.cols
        &&& self.rows == other.rows
        &&& forall|c: int, r: int|
            0 <= c < self.cols && 0 <= r < self.rows ==> self.cell(c, r) == other.cell(c, r)
    }

    /// One blank column of `rows` cells.
    fn blank_column(rows: usize) -> (col: Vec<Cell>)
        ensures
            col@.len() == rows,
            forall|j: int| 0 <= j < rows ==> col@[j] == Cell::blank_spec(),
    {
        let mut col: Vec<Cell> = Vec::new();
        let mut j: usize = 0;
        while j < rows
            invariant
                j <= rows,
                col@.len() == j,
                forall|k: int| 0 <= k < j ==> col@[k] == Cell::blank_spec(),
            decreases rows - j,
        {
            col.push(Cell::blank());
            j += 1;
        }
        col
    }

    /// Create a frame of the given dimensions with every cell blank.
    pub fn new(cols: usize, rows: usize) -> (f: Frame)
        ensures
            f.wf(),
            f.cols == cols,
            f.rows == rows,
            f.all_blank(),
    {
        let mut grid: Vec<Vec<Cell>> = Vec::new();
        let mut c: usize = 0;
        while c < cols
            invariant
                c <= cols,
                grid@.len() == c,
                forall|i: int| 0 <= i < c ==> (#[trigger] grid@[i])@.len() == rows,
                forall|i: int, j: int|
                    0 <= i < c && 0 <= j < rows ==> grid@[i]@[j] == Cell::blank_spec(),
            decreases cols - c,
        {
            grid.push(Self::blank_column(rows));
            c += 1;
        }
        Frame { cols, rows, grid }
    }

    /// Reset every cell to the default blank cell, keeping the dimensions.
    pub fn clear(&mut self)
        requires
            old(self).wf(),
        ensures
            final(self).wf(),
            final(self).cols == old(self).cols,
            final(self).rows == old(self).rows,
            final(self).all_blank(),
    {
        let cols = self.cols;
        let rows = self.rows;
        let mut c: usize = 0;
        while c < cols
            invariant
                c <= cols,
                self.cols == cols,
                self.rows == rows,
                self.wf(),
                forall|i: int, j: int|
                    0 <= i < c && 0 <= j < rows ==> self.cell(i, j) == Cell::blank_spec(),
            decreases cols - c,
        {
            let mut r: usize = 0;
            while r < rows
                invariant
                    r <= rows,
                    c < cols,
                    self.cols == cols,
                    self.rows == rows,
                    self.wf(),
                    forall|i: int, j: int|
                        0 <= i < c && 0 <= j < rows ==> self.cell(i, j) == Cell::blank_spec(),
                    forall|j: int| 0 <= j < r ==> self.cell(c as int, j) == Cell::blank_spec(),
                decreases rows - r,
            {
                self.set(c, r, Cell::blank());
                r += 1;
            }
            c += 1;
        }
    }

    /// Read the cell at `(col, row)`; the coordinate must be in range.
    pub fn get(&self, col: usize, row: usize) -> (c: Cell)
        requires
            self.wf(),
            col < self.cols,
            row < self.rows,
        ensures
            c == self.cell(col as int, row as int),
    {
        self.grid[col][row]
    }

    /// Overwrite the cell at `(col, row)`, leaving every other cell and the
    /// dimensions unchanged; the coordinate must be in range.
    pub fn set(&mut self, col: usize, row: usize, value: Cell)
        requires
            old(self).wf(),
            col < old(self).cols,
            row < old(self).rows,
        ensures
            final(self).wf(),
            final(self).cols == old(self).cols,
            final(self).rows == old(self).rows,
            final(self).cell(col as int, row as int) == value,
            forall|c: int, r: int|
                0 <= c < old(self).cols && 0 <= r < old(self).rows && !(c == col && r == row)
                    ==> final(self).cell(c, r) == old(self).cell(c, r),
    {
        proof {
            assert(self.grid_view().len() == self.grid@.len());
            assert(self.grid_view()[col as int] == self.grid@[col as int]@);
        }
        self.grid[col][row] = value;
        proof {
            assert forall|c: int| 0 <= c < self.cols implies (#[trigger] self.grid_view()[c]).len()
                == self.rows by {
                assert(self.grid_view()[c] == self.grid@[c]@);
                assert(old(self).grid_view()[c] == old(self).grid@[c]@);
            }
            assert forall|c: int, r: int|
                0 <= c < old(self).cols && 0 <= r < old(self).rows implies #[trigger] self.cell(
                c,
                r,
            ) == if c == col && r == row {
                value
            } else {
                old(self).cell(c, r)
            } by {
                assert(self.grid_view()[c] == self.grid@[c]@);
                assert(old(self).grid_view()[c] == old(self).grid@[c]@);
            }
        }
    }
}

} // verus!
