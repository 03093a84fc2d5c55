//! The fixed-size cell grid that the simulator and the rasterizer work on.

use vstd::prelude::*;

verus! {

/// Number of cell columns.
pub const WIDTH: usize = 100;

/// Number of cell rows.
pub const HEIGHT: usize = 100;

/// Side length, in pixels, of the square block that one cell fills on screen.
pub const SCALE: usize = 5;

/// Number of cells in a grid.
pub const CELL_COUNT: usize = WIDTH * HEIGHT;

/// Whether `(x, y)` names a cell of the grid.
pub open spec fn in_bounds(x: int, y: int) -> bool {
    0 <= x < WIDTH as int && 0 <= y < HEIGHT as int
}

/// Whether the cell `(x, y)` is alive in the row-major cell sequence `s`.
/// Positions outside the grid count as dead.
pub open spec fn cell(s: Seq<bool>, x: int, y: int) -> bool {
    in_bounds(x, y) && s[y * (WIDTH as int) + x]
}

/// A `WIDTH` x `HEIGHT` grid of cells, stored row-major.
pub struct Grid {
    pub cells: Vec<bool>,
}

impl View for Grid {
    type V = Seq<bool>;

    open spec fn view(&self) -> Seq<bool> {
        self.cells@
    }
}

impl Grid {
    /// The one shape invariant: the backing vector holds exactly one
    /// entry per cell.
    pub open spec fn wf(&self) -> bool {
        self.cells@.len() == CELL_COUNT as nat
    }

    /// A grid with every cell dead.
    pub fn new() -> (g: Grid)
        ensures
            g.wf(),
            forall|x: int, y: int| !cell(g@, x, y),
    {
        let mut cells: Vec<bool> = Vec::new();
        while cells.len() < CELL_COUNT
            invariant
                cells@.len() <= CELL_COUNT as nat,
                forall|i: int| 0 <= i < cells@.len() ==> !cells@[i],
            decreases CELL_COUNT - cells.len(),
        {
            cells.push(false);
        }
        Grid { cells }
    }

    /// Read one cell.
    pub fn get(&self, x: usize, y: usize) -> (b: bool)
        requires
            self.wf(),
            x < WIDTH,
            y < HEIGHT,
        ensures
            b == cell(self@, x as int, y as int),
    {
        self.cells[y * WIDTH + x]
    }
}

/// Set the cell at `(x, y)` alive; a position outside the grid is
/// silently ignored.
pub fn set_alive(grid: &mut Grid, x: usize, y: usize)
    requires
        old(grid).wf(),
    ensures
        final(grid).wf(),
        forall|ax: int, ay: int|
            #[trigger] cell(final(grid)@, ax, ay) == (cell(old(grid)@, ax, ay) || (ax == x
                && ay == y && in_bounds(ax, ay))),
{
    if x < WIDTH && y < HEIGHT {
        grid.cells[y * WIDTH + x] = true;
    }
}

} // verus!
