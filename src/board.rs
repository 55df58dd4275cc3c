//! The board record and the placeholder cells laid out on it.
use crate::cell::{Cell, cartesian_cells, grid_cells, lemma_grid_cells_in_grid};
use crate::geometry::{
    TILE_SIZE,
    TILE_SPACER,
    doubled_cell_center,
    doubled_center_of,
    footprint,
    footprint_of,
};
use vstd::prelude::*;

verus! {

/// A square board of `size` cells per side. Its physical size is always the
/// footprint of that many tiles of `TILE_SIZE` pixels with `TILE_SPACER`
/// pixels between and around them; it is never set on its own.
pub struct Board {
    size: u8,
    physical_size: u64,
}

/// An empty-cell background: a grid cell and its pixel centre.
#[derive(Clone, Copy, PartialEq, Eq, Structural, Debug)]
pub struct Placeholder {
    pub cell: Cell,
    pub x: i64,
    pub y: i64,
}

/// Twice the pixel centre, along one axis, of cell `index` on a board of
/// `size` cells per side with the board's own tile and gap lengths.
pub open spec fn board_doubled_center(index: int, size: int) -> int {
    doubled_center_of(index, size, TILE_SIZE as int, TILE_SPACER as int)
}

/// `ps` places every cell of an `n` by `n` grid, `x` major (entry `j` is the
/// cell `(j / n, j % n)`), at its pixel centre.
pub open spec fn is_layout_of(n: nat, ps: Seq<Placeholder>) -> bool {
    &&& ps.len() == n * n
    &&& forall|j: int|
        #![trigger ps[j]]
        0 <= j < ps.len() ==> {
            &&& ps[j].cell == grid_cells(n)[j]
            &&& 2 * ps[j].x == board_doubled_center(ps[j].cell.x as int, n as int)
            &&& 2 * ps[j].y == board_doubled_center(ps[j].cell.y as int, n as int)
        }
}

impl View for Board {
    /// The number of cells per side.
    type V = nat;

    closed spec fn view(&self) -> nat {
        self.size as nat
    }
}

impl Board {
    #[verifier::type_invariant]
    spec fn inv(&self) -> bool {
        &&& self.size >= 1
        &&& self.physical_size == footprint_of(
            self.size as int,
            TILE_SIZE as int,
            TILE_SPACER as int,
        )
    }

    /// A board of `size` cells per side.
    pub fn new(size: u8) -> (r: Board)
        requires
            size >= 1,
        ensures
            r@ == size,
    {
        let physical_size = footprint(size, TILE_SIZE, TILE_SPACER);
        Board { size, physical_size }
    }

    /// The number of cells per side.
    pub fn grid_size(&self) -> (r: u8)
        ensures
            r == self@,
            r >= 1,
    {
        proof {
            use_type_invariant(self);
        }
        self.size
    }

    /// Width (and height) of the board in pixels, margins included.
    pub fn physical_size(&self) -> (r: u64)
        ensures
            r == footprint_of(self@ as int, TILE_SIZE as int, TILE_SPACER as int),
    {
        proof {
            use_type_invariant(self);
        }
        self.physical_size
    }

    /// Pixel centre, along one axis, of the cell at `pos`; the board is
    /// centred on the origin. With the board's tile and gap lengths the centre
    /// is always a whole pixel.
    pub fn cell_position_to_physical(&self, pos: u8) -> (r: i64)
        requires
            pos < self@,
        ensures
            2 * r == board_doubled_center(pos as int, self@ as int),
    {
        proof {
            use_type_invariant(self);
        }
        let d = doubled_cell_center(pos, self.size, TILE_SIZE, TILE_SPACER);
        assert(d == 100 * pos + 50 - 50 * self.size);
        d / 2
    }

    /// The placeholder of every cell of the board, `x` major: entry `j` is the
    /// cell `(j / size, j % size)` at its pixel centre.
    pub fn layout_placeholders(&self) -> (r: Vec<Placeholder>)
        ensures
            is_layout_of(self@, r@),
    {
        proof {
            use_type_invariant(self);
        }
        let cells = cartesian_cells(self.size);
        let mut out: Vec<Placeholder> = Vec::new();
        let mut j: usize = 0;
        while j < cells.len()
            invariant
                cells@ == grid_cells(self@),
                j <= cells.len(),
                out.len() == j,
                forall|i: int|
                    #![trigger out@[i]]
                    0 <= i < j ==> {
                        &&& out@[i].cell == grid_cells(self@)[i]
                        &&& 2 * out@[i].x == board_doubled_center(
                            out@[i].cell.x as int,
                            self@ as int,
                        )
                        &&& 2 * out@[i].y == board_doubled_center(
                            out@[i].cell.y as int,
                            self@ as int,
                        )
                    },
            decreases cells.len() - j,
        {
            let cell = cells[j];
            proof {
                lemma_grid_cells_in_grid(self@, j as int);
            }
            let x = self.cell_position_to_physical(cell.x);
            let y = self.cell_position_to_physical(cell.y);
            out.push(Placeholder { cell, x, y });
            j = j + 1;
        }
        out
    }
}

} // verus!
