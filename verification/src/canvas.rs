//! The screen canvas: a grid of glyphs addressed by row and column, with a
//! set-cell operation. It models the draw surface the render pipeline
//! writes to; terminal output copies the finished grid.

use vstd::prelude::*;

verus! {

/// The glyph every cell holds before anything is drawn.
pub const BLANK: char = ' ';

/// A rows-by-columns grid of glyphs.
#[derive(Debug, Clone)]
pub struct Canvas {
    columns: isize,
    rows: isize,
    cells: Vec<char>,
}

impl Canvas {
    pub closed spec fn spec_columns(self) -> int {
        self.columns as int
    }

    pub closed spec fn spec_rows(self) -> int {
        self.rows as int
    }

    /// The grid is well formed when its dimensions are nonnegative and it
    /// holds exactly one glyph per cell.
    pub closed spec fn wf(self) -> bool {
        &&& 0 <= self.columns
        &&& 0 <= self.rows
        &&& self.rows * self.columns <= usize::MAX
        &&& self.cells@.len() == self.rows * self.columns
    }

    /// The glyph at cell (`row`, `col`).
    pub closed spec fn at(self, row: int, col: int) -> char {
        self.cells@[row * self.columns + col]
    }

    /// A blank canvas of the given dimensions.
    pub fn new(columns: isize, rows: isize) -> (r: Canvas)
        requires
            0 <= columns,
            0 <= rows,
            rows * columns <= usize::MAX,
        ensures
            r.wf(),
            r.spec_columns() == columns,
            r.spec_rows() == rows,
            forall|i: int, j: int|
                0 <= i < rows && 0 <= j < columns ==> r.at(i, j) == BLANK,
    {
        let n: usize = (rows as usize) * (columns as usize);
        let mut cells: Vec<char> = Vec::new();
        let mut k: usize = 0;
        while k < n
            invariant
                k <= n,
                cells@.len() == k,
                forall|m: int| 0 <= m < k ==> cells@[m] == BLANK,
            decreases n - k,
        {
            cells.push(BLANK);
            k = k + 1;
        }
        let r = Canvas { columns, rows, cells };
        proof {
            assert forall|i: int, j: int|
                0 <= i < rows && 0 <= j < columns implies r.at(i, j) == BLANK by {
                lemma_cell_index_bounded(rows as int, columns as int, i, j);
            }
        }
        r
    }

    pub fn columns(&self) -> (r: isize)
        ensures
            r == self.spec_columns(),
    {
        self.columns
    }

    pub fn rows(&self) -> (r: isize)
        ensures
            r == self.spec_rows(),
    {
        self.rows
    }

    /// Writes `glyph` at cell (`row`, `col`); every other cell keeps its
    /// glyph.
    pub fn set(&mut self, row: isize, col: isize, glyph: char)
        requires
            old(self).wf(),
            0 <= row < old(self).spec_rows(),
            0 <= col < old(self).spec_columns(),
        ensures
            final(self).wf(),
            final(self).spec_columns() == old(self).spec_columns(),
            final(self).spec_rows() == old(self).spec_rows(),
            final(self).at(row as int, col as int) == glyph,
            forall|i: int, j: int|
                0 <= i < old(self).spec_rows() && 0 <= j < old(self).spec_columns()
                    && !(i == row as int && j == col as int) ==> final(self).at(i, j) == old(
                self,
            ).at(i, j),
    {
        proof {
            lemma_cell_index_bounded(self.rows as int, self.columns as int, row as int, col as int);
        }
        let idx: usize = (row as usize) * (self.columns as usize) + (col as usize);
        self.cells[idx] = glyph;
        proof {
            assert forall|i: int, j: int|
                0 <= i < self.spec_rows() && 0 <= j < self.spec_columns()
                    && !(i == row as int && j == col as int) implies self.at(i, j) == old(self).at(
                i,
                j,
            ) by {
                lemma_cell_index_bounded(self.rows as int, self.columns as int, i, j);
                if i * (self.columns as int) + j == (row as int) * (self.columns as int)
                    + (col as int) {
                    lemma_cell_index_injective(self.columns as int, i, j, row as int, col as int);
                }
            }
        }
    }

    /// Reads the glyph at cell (`row`, `col`).
    pub fn get(&self, row: isize, col: isize) -> (r: char)
        requires
            self.wf(),
            0 <= row < self.spec_rows(),
            0 <= col < self.spec_columns(),
        ensures
            r == self.at(row as int, col as int),
    {
        proof {
            lemma_cell_index_bounded(self.rows as int, self.columns as int, row as int, col as int);
        }
        let idx: usize = (row as usize) * (self.columns as usize) + (col as usize);
        self.cells[idx]
    }
}

/// A cell's flat index lies inside the grid.
proof fn lemma_cell_index_bounded(rows: int, columns: int, i: int, j: int)
    requires
        0 <= i < rows,
        0 <= j < columns,
    ensures
        0 <= i * columns + j < rows * columns,
{
    assert(0 <= i * columns + j < rows * columns) by (nonlinear_arith)
        requires
            0 <= i < rows,
            0 <= j < columns,
    ;
}

/// Distinct cells have distinct flat indices.
proof fn lemma_cell_index_injective(columns: int, i1: int, j1: int, i2: int, j2: int)
    requires
        0 <= i1,
        0 <= j1 < columns,
        0 <= i2,
        0 <= j2 < columns,
        i1 * columns + j1 == i2 * columns + j2,
    ensures
        i1 == i2 && j1 == j2,
{
    assert(i1 == i2 && j1 == j2) by (nonlinear_arith)
        requires
            0 <= i1,
            0 <= j1 < columns,
            0 <= i2,
            0 <= j2 < columns,
            i1 * columns + j1 == i2 * columns + j2,
    ;
}

} // verus!
