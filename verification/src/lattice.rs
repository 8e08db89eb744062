//! The simulation grid: a fixed-size 2D array of three-channel cells.
//!
//! Cells are stored row-major with `x` fastest: cell `(x, y)` lives at index
//! `x + width * y`. Dimensions are immutable for the lifetime of a lattice;
//! changing them means constructing a new one.

use vstd::prelude::*;

verus! {

/// The largest grid extent the engine accepts along either axis. It keeps
/// every vertex index inside `u32` and every coordinate inside `i32`.
pub const MAX_DIM: usize = 4096;

/// One grid cell: three independent 8-bit channel values. The channels are
/// nominally red, green and blue, reinterpreted per preset as chemical
/// concentrations or population densities.
#[derive(Clone, Copy, Debug, PartialEq, Eq, Structural)]
pub struct Cell {
    pub r: u8,
    pub g: u8,
    pub b: u8,
}

/// The value of channel `channel` of a cell: 0 is red, 1 is green, every
/// other selector is blue.
pub open spec fn spec_channel(c: Cell, channel: int) -> int {
    if channel == 0 {
        c.r as int
    } else if channel == 1 {
        c.g as int
    } else {
        c.b as int
    }
}

impl Cell {
    /// Reads the channel selected by `channel`: 0 is red, 1 is green, every
    /// other selector is blue.
    pub fn channel(&self, channel: usize) -> (r: u8)
        ensures
            r as int == spec_channel(*self, channel as int),
    {
        if channel == 0 {
            self.r
        } else if channel == 1 {
            self.g
        } else {
            self.b
        }
    }
}

/// The cell at in-range position `(x, y)` of a row-major cell buffer of the
/// given width.
pub open spec fn spec_cell_at(cells: Seq<Cell>, width: int, x: int, y: int) -> Cell {
    cells[x + width * y]
}

/// A `width x height` toroidal grid of [`Cell`], row-major with `x` fastest.
pub struct Lattice {
    pub cells: Vec<Cell>,
    pub width: usize,
    pub height: usize,
}

impl Lattice {
    /// Both extents are positive, at most [`MAX_DIM`], and the cell buffer
    /// holds exactly one cell per grid position.
    pub open spec fn wf(self) -> bool {
        &&& 1 <= self.width <= MAX_DIM
        &&& 1 <= self.height <= MAX_DIM
        &&& self.cells.len() == self.width * self.height
    }

    /// The cell at in-range position `(x, y)`.
    pub open spec fn spec_cell(self, x: int, y: int) -> Cell {
        spec_cell_at(self.cells@, self.width as int, x, y)
    }

    /// A fresh lattice with every cell set to `fill`.
    pub fn new(width: usize, height: usize, fill: Cell) -> (r: Lattice)
        requires
            1 <= width <= MAX_DIM,
            1 <= height <= MAX_DIM,
        ensures
            r.wf(),
            r.width == width,
            r.height == height,
            forall|i: int| 0 <= i < width * height ==> r.cells[i] == fill,
    {
        proof {
            assert(width * height <= MAX_DIM * MAX_DIM) by (nonlinear_arith)
                requires
                    1 <= width <= MAX_DIM,
                    1 <= height <= MAX_DIM,
            ;
            assert(width * height >= 1) by (nonlinear_arith)
                requires
                    1 <= width,
                    1 <= height,
            ;
        }
        let n: usize = width * height;
        let mut cells: Vec<Cell> = Vec::new();
        let mut i: usize = 0;
        while i < n
            invariant
                i <= n,
                cells.len() == i,
                forall|j: int| 0 <= j < i ==> cells[j] == fill,
            decreases n - i,
        {
            cells.push(fill);
            i = i + 1;
        }
        Lattice { cells, width, height }
    }

    /// Reads the cell at in-range position `(x, y)`.
    pub fn get(&self, x: usize, y: usize) -> (r: Cell)
        requires
            self.wf(),
            x < self.width,
            y < self.height,
        ensures
            r == self.spec_cell(x as int, y as int),
    {
        proof {
            lemma_index_in_bounds(self.width as int, self.height as int, x as int, y as int);
        }
        self.cells[x + self.width * y]
    }

    /// Writes the cell at in-range position `(x, y)`, leaving every other
    /// cell and both dimensions unchanged.
    pub fn set(&mut self, x: usize, y: usize, c: Cell)
        requires
            old(self).wf(),
            x < old(self).width,
            y < old(self).height,
        ensures
            final(self).wf(),
            final(self).width == old(self).width,
            final(self).height == old(self).height,
            final(self).cells@ == old(self).cells@.update(x + old(self).width * y, c),
    {
        proof {
            lemma_index_in_bounds(self.width as int, self.height as int, x as int, y as int);
        }
        let idx: usize = x + self.width * y;
        self.cells[idx] = c;
    }
}

/// Distinct in-range positions map to distinct row-major indices.
pub proof fn lemma_index_injective(width: int, x1: int, y1: int, x2: int, y2: int)
    by (nonlinear_arith)
    requires
        1 <= width,
        0 <= x1 < width,
        0 <= x2 < width,
        0 <= y1,
        0 <= y2,
        x1 + width * y1 == x2 + width * y2,
    ensures
        x1 == x2,
        y1 == y2,
{
}

/// A row-major index below `width * height` decomposes into the in-range
/// position it addresses: `x = k % width`, `y = k / width`.
pub proof fn lemma_index_decompose(width: int, height: int, k: int)
    requires
        1 <= width,
        1 <= height,
        0 <= k < width * height,
    ensures
        0 <= k % width < width,
        0 <= k / width < height,
        k == (k % width) + width * (k / width),
{
    vstd::arithmetic::div_mod::lemma_mod_bound(k, width);
    vstd::arithmetic::div_mod::lemma_div_pos_is_pos(k, width);
    vstd::arithmetic::div_mod::lemma_multiply_divide_lt(k, width, height);
    vstd::arithmetic::div_mod::lemma_fundamental_div_mod(k, width);
}

/// An in-range position maps to an in-range row-major index.
pub proof fn lemma_index_in_bounds(width: int, height: int, x: int, y: int)
    by (nonlinear_arith)
    requires
        1 <= width,
        1 <= height,
        0 <= x < width,
        0 <= y < height,
    ensures
        0 <= x + width * y < width * height,
{
}

} // verus!
