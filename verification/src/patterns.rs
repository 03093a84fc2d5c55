//! The pattern library: classic still lifes, oscillators and spaceships,
//! written into a grid at an anchor. Offsets that fall outside the grid
//! are silently dropped, never an error.

use vstd::prelude::*;
use crate::grid::{Grid, cell, in_bounds, WIDTH, HEIGHT};

verus! {

/// The cells of a glider, relative to its anchor.
pub open spec fn glider_rel(dx: int, dy: int) -> bool {
    (dx == 1 && dy == 0) || (dx == 2 && dy == 1) || (dx == 0 && dy == 2) || (dx == 1 && dy == 2)
        || (dx == 2 && dy == 2)
}

/// The cells of a blinker (horizontal phase), relative to its anchor.
pub open spec fn blinker_rel(dx: int, dy: int) -> bool {
    (dx == 0 && dy == 0) || (dx == 1 && dy == 0) || (dx == 2 && dy == 0)
}

/// The cells of a block, relative to its anchor.
pub open spec fn block_rel(dx: int, dy: int) -> bool {
    (dx == 0 && dy == 0) || (dx == 1 && dy == 0) || (dx == 0 && dy == 1) || (dx == 1 && dy == 1)
}

/// The cells of a beehive, relative to its anchor.
pub open spec fn beehive_rel(dx: int, dy: int) -> bool {
    (dx == 1 && dy == 0) || (dx == 2 && dy == 0) || (dx == 0 && dy == 1) || (dx == 3 && dy == 1)
        || (dx == 1 && dy == 2) || (dx == 2 && dy == 2)
}

/// The cells of a loaf, relative to its anchor.
pub open spec fn loaf_rel(dx: int, dy: int) -> bool {
    (dx == 1 && dy == 0) || (dx == 2 && dy == 0) || (dx == 0 && dy == 1) || (dx == 3 && dy == 1)
        || (dx == 1 && dy == 2) || (dx == 3 && dy == 2) || (dx == 2 && dy == 3)
}

/// The cells of a boat, relative to its anchor.
pub open spec fn boat_rel(dx: int, dy: int) -> bool {
    (dx == 0 && dy == 0) || (dx == 1 && dy == 0) || (dx == 0 && dy == 1) || (dx == 2 && dy == 1)
        || (dx == 1 && dy == 2)
}

/// The cells of a toad, relative to its anchor.
pub open spec fn toad_rel(dx: int, dy: int) -> bool {
    (dx == 1 && dy == 0) || (dx == 2 && dy == 0) || (dx == 3 && dy == 0) || (dx == 0 && dy == 1)
        || (dx == 1 && dy == 1) || (dx == 2 && dy == 1)
}

/// The cells of a beacon, relative to its anchor.
pub open spec fn beacon_rel(dx: int, dy: int) -> bool {
    (dx == 0 && dy == 0) || (dx == 1 && dy == 0) || (dx == 0 && dy == 1) || (dx == 3 && dy == 2)
        || (dx == 2 && dy == 3) || (dx == 3 && dy == 3)
}

/// The cells of a lightweight spaceship (its 9-cell phase, heading
/// left), relative to its anchor.
pub open spec fn lwss_rel(dx: int, dy: int) -> bool {
    (dx == 0 && dy == 0) || (dx == 1 && dy == 0) || (dx == 2 && dy == 0) || (dx == 3 && dy == 0)
        || (dx == 0 && dy == 1) || (dx == 4 && dy == 1) || (dx == 0 && dy == 2) || (dx == 1 && dy
        == 3) || (dx == 4 && dy == 3)
}

/// The cells of a glider gun, relative to its anchor.
pub open spec fn glider_gun_rel(dx: int, dy: int) -> bool {
    (dx == 0 && dy == 4) || (dx == 0 && dy == 5) || (dx == 1 && dy == 4) || (dx == 1 && dy == 5)
        || (dx == 10 && dy == 4) || (dx == 10 && dy == 5) || (dx == 10 && dy == 6) || (dx == 11
        && dy == 3) || (dx == 11 && dy == 7) || (dx == 12 && dy == 2) || (dx == 12 && dy == 8) || (
    dx == 13 && dy == 2) || (dx == 13 && dy == 8) || (dx == 14 && dy == 5) || (dx == 15 && dy == 3)
        || (dx == 15 && dy == 7) || (dx == 16 && dy == 4) || (dx == 16 && dy == 5) || (dx == 16
        && dy == 6) || (dx == 17 && dy == 5) || (dx == 20 && dy == 2) || (dx == 20 && dy == 3) || (
    dx == 20 && dy == 4) || (dx == 21 && dy == 2) || (dx == 21 && dy == 3) || (dx == 21 && dy == 4)
        || (dx == 22 && dy == 1) || (dx == 22 && dy == 5) || (dx == 24 && dy == 0) || (dx == 24
        && dy == 1) || (dx == 24 && dy == 5) || (dx == 24 && dy == 6) || (dx == 34 && dy == 2) || (
    dx == 34 && dy == 3) || (dx == 35 && dy == 2) || (dx == 35 && dy == 3)
}

/// Set the cell at `(x + dx, y + dy)` alive if it lies on the grid;
/// otherwise change nothing.
fn place(grid: &mut Grid, x: usize, y: usize, dx: usize, dy: usize)
    requires
        old(grid).wf(),
        dx < WIDTH,
        dy < HEIGHT,
    ensures
        final(grid).wf(),
        forall|ax: int, ay: int|
            #[trigger] cell(final(grid)@, ax, ay) == (cell(old(grid)@, ax, ay) || (ax == x + dx
                && ay == y + dy && in_bounds(ax, ay))),
{
    if x < WIDTH && y < HEIGHT {
        let cx = x + dx;
        let cy = y + dy;
        if cx < WIDTH && cy < HEIGHT {
            grid.cells[cy * WIDTH + cx] = true;
        }
    }
}

/// Write a glider with its anchor at `(x, y)`; offsets off the grid are
/// dropped.
pub fn add_glider(grid: &mut Grid, x: usize, y: usize)
    requires
        old(grid).wf(),
    ensures
        final(grid).wf(),
        forall|ax: int, ay: int|
            #[trigger] cell(final(grid)@, ax, ay) == (cell(old(grid)@, ax, ay) || (in_bounds(
                ax,
                ay,
            ) && glider_rel(ax - x, ay - y))),
{
    place(grid, x, y, 1, 0);
    place(grid, x, y, 2, 1);
    place(grid, x, y, 0, 2);
    place(grid, x, y, 1, 2);
    place(grid, x, y, 2, 2);
}

/// Write a blinker (horizontal phase) with its anchor at `(x, y)`.
pub fn add_blinker(grid: &mut Grid, x: usize, y: usize)
    requires
        old(grid).wf(),
    ensures
        final(grid).wf(),
        forall|ax: int, ay: int|
            #[trigger] cell(final(grid)@, ax, ay) == (cell(old(grid)@, ax, ay) || (in_bounds(
                ax,
                ay,
            ) && blinker_rel(ax - x, ay - y))),
{
    place(grid, x, y, 0, 0);
    place(grid, x, y, 1, 0);
    place(grid, x, y, 2, 0);
}

/// Write a block with its anchor at `(x, y)`.
pub fn add_block(grid: &mut Grid, x: usize, y: usize)
    requires
        old(grid).wf(),
    ensures
        final(grid).wf(),
        forall|ax: int, ay: int|
            #[trigger] cell(final(grid)@, ax, ay) == (cell(old(grid)@, ax, ay) || (in_bounds(
                ax,
                ay,
            ) && block_rel(ax - x, ay - y))),
{
    place(grid, x, y, 0, 0);
    place(grid, x, y, 1, 0);
    place(grid, x, y, 0, 1);
    place(grid, x, y, 1, 1);
}

/// Write a beehive with its anchor at `(x, y)`.
pub fn add_beehive(grid: &mut Grid, x: usize, y: usize)
    requires
        old(grid).wf(),
    ensures
        final(grid).wf(),
        forall|ax: int, ay: int|
            #[trigger] cell(final(grid)@, ax, ay) == (cell(old(grid)@, ax, ay) || (in_bounds(
                ax,
                ay,
            ) && beehive_rel(ax - x, ay - y))),
{
    place(grid, x, y, 1, 0);
    place(grid, x, y, 2, 0);
    place(grid, x, y, 0, 1);
    place(grid, x, y, 3, 1);
    place(grid, x, y, 1, 2);
    place(grid, x, y, 2, 2);
}

/// Write a loaf with its anchor at `(x, y)`.
pub fn add_loaf(grid: &mut Grid, x: usize, y: usize)
    requires
        old(grid).wf(),
    ensures
        final(grid).wf(),
        forall|ax: int, ay: int|
            #[trigger] cell(final(grid)@, ax, ay) == (cell(old(grid)@, ax, ay) || (in_bounds(
                ax,
                ay,
            ) && loaf_rel(ax - x, ay - y))),
{
    place(grid, x, y, 1, 0);
    place(grid, x, y, 2, 0);
    place(grid, x, y, 0, 1);
    place(grid, x, y, 3, 1);
    place(grid, x, y, 1, 2);
    place(grid, x, y, 3, 2);
    place(grid, x, y, 2, 3);
}

/// Write a boat with its anchor at `(x, y)`.
pub fn add_boat(grid: &mut Grid, x: usize, y: usize)
    requires
        old(grid).wf(),
    ensures
        final(grid).wf(),
        forall|ax: int, ay: int|
            #[trigger] cell(final(grid)@, ax, ay) == (cell(old(grid)@, ax, ay) || (in_bounds(
                ax,
                ay,
            ) && boat_rel(ax - x, ay - y))),
{
    place(grid, x, y, 0, 0);
    place(grid, x, y, 1, 0);
    place(grid, x, y, 0, 1);
    place(grid, x, y, 2, 1);
    place(grid, x, y, 1, 2);
}

/// Write a toad with its anchor at `(x, y)`.
pub fn add_toad(grid: &mut Grid, x: usize, y: usize)
    requires
        old(grid).wf(),
    ensures
        final(grid).wf(),
        forall|ax: int, ay: int|
            #[trigger] cell(final(grid)@, ax, ay) == (cell(old(grid)@, ax, ay) || (in_bounds(
                ax,
                ay,
            ) && toad_rel(ax - x, ay - y))),
{
    place(grid, x, y, 1, 0);
    place(grid, x, y, 2, 0);
    place(grid, x, y, 3, 0);
    place(grid, x, y, 0, 1);
    place(grid, x, y, 1, 1);
    place(grid, x, y, 2, 1);
}

/// Write a beacon with its anchor at `(x, y)`.
pub fn add_beacon(grid: &mut Grid, x: usize, y: usize)
    requires
        old(grid).wf(),
    ensures
        final(grid).wf(),
        forall|ax: int, ay: int|
            #[trigger] cell(final(grid)@, ax, ay) == (cell(old(grid)@, ax, ay) || (in_bounds(
                ax,
                ay,
            ) && beacon_rel(ax - x, ay - y))),
{
    place(grid, x, y, 0, 0);
    place(grid, x, y, 1, 0);
    place(grid, x, y, 0, 1);
    place(grid, x, y, 3, 2);
    place(grid, x, y, 2, 3);
    place(grid, x, y, 3, 3);
}

/// Write a lightweight spaceship with its anchor at `(x, y)`.
pub fn add_lwss(grid: &mut Grid, x: usize, y: usize)
    requires
        old(grid).wf(),
    ensures
        final(grid).wf(),
        forall|ax: int, ay: int|
            #[trigger] cell(final(grid)@, ax, ay) == (cell(old(grid)@, ax, ay) || (in_bounds(
                ax,
                ay,
            ) && lwss_rel(ax - x, ay - y))),
{
    place(grid, x, y, 0, 0);
    place(grid, x, y, 1, 0);
    place(grid, x, y, 2, 0);
    place(grid, x, y, 3, 0);
    place(grid, x, y, 0, 1);
    place(grid, x, y, 4, 1);
    place(grid, x, y, 0, 2);
    place(grid, x, y, 1, 3);
    place(grid, x, y, 4, 3);
}

/// Write a glider gun with its anchor at `(x, y)`; offsets off the grid
/// are dropped.
#[verifier::rlimit(30)]
pub fn add_glider_gun(grid: &mut Grid, x: usize, y: usize)
    requires
        old(grid).wf(),
    ensures
        final(grid).wf(),
        forall|ax: int, ay: int|
            #[trigger] cell(final(grid)@, ax, ay) == (cell(old(grid)@, ax, ay) || (in_bounds(
                ax,
                ay,
            ) && glider_gun_rel(ax - x, ay - y))),
{
    place(grid, x, y, 0, 4);
    place(grid, x, y, 0, 5);
    place(grid, x, y, 1, 4);
    place(grid, x, y, 1, 5);
    place(grid, x, y, 10, 4);
    place(grid, x, y, 10, 5);
    place(grid, x, y, 10, 6);
    place(grid, x, y, 11, 3);
    place(grid, x, y, 11, 7);
    place(grid, x, y, 12, 2);
    place(grid, x, y, 12, 8);
    place(grid, x, y, 13, 2);
    place(grid, x, y, 13, 8);
    place(grid, x, y, 14, 5);
    place(grid, x, y, 15, 3);
    place(grid, x, y, 15, 7);
    place(grid, x, y, 16, 4);
    place(grid, x, y, 16, 5);
    place(grid, x, y, 16, 6);
    place(grid, x, y, 17, 5);
    place(grid, x, y, 20, 2);
    place(grid, x, y, 20, 3);
    place(grid, x, y, 20, 4);
    place(grid, x, y, 21, 2);
    place(grid, x, y, 21, 3);
    place(grid, x, y, 21, 4);
    place(grid, x, y, 22, 1);
    place(grid, x, y, 22, 5);
    place(grid, x, y, 24, 0);
    place(grid, x, y, 24, 1);
    place(grid, x, y, 24, 5);
    place(grid, x, y, 24, 6);
    place(grid, x, y, 34, 2);
    place(grid, x, y, 34, 3);
    place(grid, x, y, 35, 2);
    place(grid, x, y, 35, 3);
}

} // verus!
