//! The cellular-automaton step: neighbor counting and the birth/death rule.

use vstd::prelude::*;
use crate::grid::{Grid, cell, in_bounds, CELL_COUNT, WIDTH, HEIGHT};

verus! {

/// 1 when a cell is alive, 0 when it is dead; used to sum neighbors.
pub open spec fn live_as_int(b: bool) -> int {
    if b {
        1
    } else {
        0
    }
}

/// How many of the up-to-8 Moore neighbors of `(x, y)` are alive in `s`.
/// Neighbors outside the grid count as dead, so edge and corner cells
/// see fewer than 8 candidates.
pub open spec fn live_neighbors(s: Seq<bool>, x: int, y: int) -> int {
    live_as_int(cell(s, x - 1, y - 1)) + live_as_int(cell(s, x, y - 1)) + live_as_int(
        cell(s, x + 1, y - 1),
    ) + live_as_int(cell(s, x - 1, y)) + live_as_int(cell(s, x + 1, y)) + live_as_int(
        cell(s, x - 1, y + 1),
    ) + live_as_int(cell(s, x, y + 1)) + live_as_int(cell(s, x + 1, y + 1))
}

/// The birth/death rule: a live cell with 2 or 3 live neighbors stays
/// alive, a dead cell with exactly 3 live neighbors is born, everything
/// else is dead in the next generation.
pub open spec fn next_cell(alive: bool, neighbors: int) -> bool {
    (alive && (neighbors == 2 || neighbors == 3)) || (!alive && neighbors == 3)
}

/// The whole next generation of `s`, cell by cell, row-major.
pub open spec fn step_spec(s: Seq<bool>) -> Seq<bool> {
    Seq::new(
        s.len(),
        |i: int|
            next_cell(
                cell(s, i % (WIDTH as int), i / (WIDTH as int)),
                live_neighbors(s, i % (WIDTH as int), i / (WIDTH as int)),
            ),
    )
}

/// Reading a cell of the next generation is the rule applied to that
/// cell of the current one.
pub proof fn lemma_step_spec_cell(s: Seq<bool>, x: int, y: int)
    requires
        s.len() == CELL_COUNT as nat,
        in_bounds(x, y),
    ensures
        cell(step_spec(s), x, y) == next_cell(cell(s, x, y), live_neighbors(s, x, y)),
{
    let i = y * (WIDTH as int) + x;
    assert(0 <= i < CELL_COUNT as int);
    vstd::arithmetic::div_mod::lemma_fundamental_div_mod_converse(i, WIDTH as int, y, x);
}

/// Two grids whose cells agree everywhere are the same sequence.
pub proof fn lemma_grids_equal(a: Seq<bool>, b: Seq<bool>)
    requires
        a.len() == CELL_COUNT as nat,
        b.len() == CELL_COUNT as nat,
        forall|x: int, y: int| in_bounds(x, y) ==> #[trigger] cell(a, x, y) == cell(b, x, y),
    ensures
        a == b,
{
    assert forall|i: int| 0 <= i < a.len() implies a[i] == b[i] by {
        vstd::arithmetic::div_mod::lemma_fundamental_div_mod(i, WIDTH as int);
        vstd::arithmetic::div_mod::lemma_mod_pos_bound(i, WIDTH as int);
        let x = i % (WIDTH as int);
        let y = i / (WIDTH as int);
        assert(0 <= y < HEIGHT as int) by (nonlinear_arith)
            requires
                0 <= i < 10000,
                i == (WIDTH as int) * y + x,
                0 <= x < WIDTH as int,
        ;
        assert(cell(a, x, y) == cell(b, x, y));
        assert(a[i] == b[i]);
    }
    assert(a =~= b);
}

/// Count the live Moore neighbors of `(x, y)`.
pub fn count_neighbors(grid: &Grid, x: usize, y: usize) -> (n: u8)
    requires
        grid.wf(),
        x < WIDTH,
        y < HEIGHT,
    ensures
        n as int == live_neighbors(grid@, x as int, y as int),
{
    let mut count: u8 = 0;
    if x > 0 && y > 0 && grid.get(x - 1, y - 1) {
        count = count + 1;
    }
    if y > 0 && grid.get(x, y - 1) {
        count = count + 1;
    }
    if x + 1 < WIDTH && y > 0 && grid.get(x + 1, y - 1) {
        count = count + 1;
    }
    if x > 0 && grid.get(x - 1, y) {
        count = count + 1;
    }
    if x + 1 < WIDTH && grid.get(x + 1, y) {
        count = count + 1;
    }
    if x > 0 && y + 1 < HEIGHT && grid.get(x - 1, y + 1) {
        count = count + 1;
    }
    if y + 1 < HEIGHT && grid.get(x, y + 1) {
        count = count + 1;
    }
    if x + 1 < WIDTH && y + 1 < HEIGHT && grid.get(x + 1, y + 1) {
        count = count + 1;
    }
    count
}

/// Advance the grid one generation. The input grid is left as it is;
/// a brand-new grid of the same dimensions comes back, with the rule
/// applied to every cell at once.
pub fn step(current: &Grid) -> (next: Grid)
    requires
        current.wf(),
    ensures
        next.wf(),
        next@.len() == current@.len(),
        next@ == step_spec(current@),
{
    let mut cells: Vec<bool> = Vec::new();
    let mut y: usize = 0;
    while y < HEIGHT
        invariant
            current.wf(),
            y <= HEIGHT,
            cells@.len() == y * WIDTH,
            forall|k: int| 0 <= k < cells@.len() ==> cells@[k] == step_spec(current@)[k],
        decreases HEIGHT - y,
    {
        let mut x: usize = 0;
        while x < WIDTH
            invariant
                current.wf(),
                y < HEIGHT,
                x <= WIDTH,
                cells@.len() == y * WIDTH + x,
                forall|k: int| 0 <= k < cells@.len() ==> cells@[k] == step_spec(current@)[k],
            decreases WIDTH - x,
        {
            let alive = current.get(x, y);
            let neighbors = count_neighbors(current, x, y);
            let v = (alive && (neighbors == 2 || neighbors == 3)) || (!alive && neighbors == 3);
            proof {
                lemma_step_spec_cell(current@, x as int, y as int);
            }
            cells.push(v);
            x = x + 1;
        }
        y = y + 1;
    }
    proof {
        assert(cells@ =~= step_spec(current@));
    }
    Grid { cells }
}

} // verus!
