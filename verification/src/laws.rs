//! Proved facts about the simulator: the population rules, and the
//! classic behaviour of the block, the blinker and the glider.

use vstd::prelude::*;
use crate::grid::{cell, in_bounds, CELL_COUNT, WIDTH, HEIGHT};
use crate::sim::{live_neighbors, next_cell, step_spec, lemma_step_spec_cell, lemma_grids_equal};
use crate::patterns::{block_rel, blinker_rel, glider_rel, lwss_rel};

verus! {

/// Underpopulation: a cell with at most one live neighbor is dead in
/// the next generation, whatever its current state.
pub proof fn lemma_underpopulation(s: Seq<bool>, x: int, y: int)
    requires
        s.len() == CELL_COUNT as nat,
        in_bounds(x, y),
        live_neighbors(s, x, y) <= 1,
    ensures
        !cell(step_spec(s), x, y),
{
    lemma_step_spec_cell(s, x, y);
}

/// Overpopulation: a cell with four or more live neighbors is dead in
/// the next generation, whatever its current state.
pub proof fn lemma_overpopulation(s: Seq<bool>, x: int, y: int)
    requires
        s.len() == CELL_COUNT as nat,
        in_bounds(x, y),
        live_neighbors(s, x, y) >= 4,
    ensures
        !cell(step_spec(s), x, y),
{
    lemma_step_spec_cell(s, x, y);
}

/// A block is a still life: a grid holding exactly one block, anywhere
/// on the grid, is unchanged by a step.
pub proof fn lemma_block_still_life(s: Seq<bool>, x: int, y: int)
    requires
        s.len() == CELL_COUNT as nat,
        0 <= x,
        x + 1 < WIDTH as int,
        0 <= y,
        y + 1 < HEIGHT as int,
        forall|ax: int, ay: int|
            #[trigger] cell(s, ax, ay) == (in_bounds(ax, ay) && block_rel(ax - x, ay - y)),
    ensures
        step_spec(s) == s,
{
    assert forall|ax: int, ay: int| in_bounds(ax, ay) implies #[trigger] cell(step_spec(s), ax, ay)
        == cell(s, ax, ay) by {
        lemma_step_spec_cell(s, ax, ay);
    }
    lemma_grids_equal(step_spec(s), s);
}

/// The cells of the vertical phase of a blinker, relative to the
/// horizontal phase's anchor.
spec fn blinker_vertical_rel(dx: int, dy: int) -> bool {
    dx == 1 && (dy == -1 || dy == 0 || dy == 1)
}

/// A blinker is an oscillator of period two: a grid holding exactly one
/// horizontal blinker, with a free row above and below, returns to
/// itself after two steps.
pub proof fn lemma_blinker_period_two(s: Seq<bool>, x: int, y: int)
    requires
        s.len() == CELL_COUNT as nat,
        0 <= x,
        x + 2 < WIDTH as int,
        1 <= y,
        y + 1 < HEIGHT as int,
        forall|ax: int, ay: int|
            #[trigger] cell(s, ax, ay) == (in_bounds(ax, ay) && blinker_rel(ax - x, ay - y)),
    ensures
        step_spec(step_spec(s)) == s,
{
    let s1 = step_spec(s);
    assert(s1.len() == CELL_COUNT as nat);
    assert forall|ax: int, ay: int|
        #[trigger] cell(s1, ax, ay) == (in_bounds(ax, ay) && blinker_vertical_rel(
        ax - x,
        ay - y,
    )) by {
        if in_bounds(ax, ay) {
            lemma_step_spec_cell(s, ax, ay);
        }
    }
    assert forall|ax: int, ay: int| in_bounds(ax, ay) implies #[trigger] cell(step_spec(s1), ax, ay)
        == cell(s, ax, ay) by {
        lemma_step_spec_cell(s1, ax, ay);
    }
    lemma_grids_equal(step_spec(s1), s);
}

/// The cells of a glider one generation after `glider_rel`, relative to
/// the same anchor.
spec fn glider_phase1_rel(dx: int, dy: int) -> bool {
    (dx == 0 && dy == 1) || (dx == 2 && dy == 1) || (dx == 1 && dy == 2) || (dx == 2 && dy == 2)
        || (dx == 1 && dy == 3)
}

/// The cells of a glider two generations after `glider_rel`.
spec fn glider_phase2_rel(dx: int, dy: int) -> bool {
    (dx == 2 && dy == 1) || (dx == 0 && dy == 2) || (dx == 2 && dy == 2) || (dx == 1 && dy == 3)
        || (dx == 2 && dy == 3)
}

/// The cells of a glider three generations after `glider_rel`.
spec fn glider_phase3_rel(dx: int, dy: int) -> bool {
    (dx == 1 && dy == 1) || (dx == 2 && dy == 2) || (dx == 3 && dy == 2) || (dx == 1 && dy == 3)
        || (dx == 2 && dy == 3)
}

/// A glider is a diagonal spaceship: a grid holding exactly one glider,
/// far enough from the edges to run unobstructed, holds after four
/// steps exactly the same glider moved one cell right and one cell
/// down.
#[verifier::rlimit(50)]
pub proof fn lemma_glider_translates(s: Seq<bool>, x: int, y: int)
    requires
        s.len() == CELL_COUNT as nat,
        0 <= x,
        x + 3 < WIDTH as int,
        0 <= y,
        y + 3 < HEIGHT as int,
        forall|ax: int, ay: int|
            #[trigger] cell(s, ax, ay) == (in_bounds(ax, ay) && glider_rel(ax - x, ay - y)),
    ensures
        forall|ax: int, ay: int|
            #[trigger] cell(step_spec(step_spec(step_spec(step_spec(s)))), ax, ay) == (in_bounds(
                ax,
                ay,
            ) && glider_rel(ax - (x + 1), ay - (y + 1))),
{
    let s1 = step_spec(s);
    let s2 = step_spec(s1);
    let s3 = step_spec(s2);
    assert forall|ax: int, ay: int|
        #[trigger] cell(s1, ax, ay) == (in_bounds(ax, ay) && glider_phase1_rel(
        ax - x,
        ay - y,
    )) by {
        if in_bounds(ax, ay) {
            lemma_step_spec_cell(s, ax, ay);
        }
    }
    assert forall|ax: int, ay: int|
        #[trigger] cell(s2, ax, ay) == (in_bounds(ax, ay) && glider_phase2_rel(
        ax - x,
        ay - y,
    )) by {
        if in_bounds(ax, ay) {
            lemma_step_spec_cell(s1, ax, ay);
        }
    }
    assert forall|ax: int, ay: int|
        #[trigger] cell(s3, ax, ay) == (in_bounds(ax, ay) && glider_phase3_rel(
        ax - x,
        ay - y,
    )) by {
        if in_bounds(ax, ay) {
            lemma_step_spec_cell(s2, ax, ay);
        }
    }
    assert forall|ax: int, ay: int|
        #[trigger] cell(step_spec(s3), ax, ay) == (in_bounds(ax, ay) && glider_rel(
        ax - (x + 1),
        ay - (y + 1),
    )) by {
        if in_bounds(ax, ay) {
            lemma_step_spec_cell(s3, ax, ay);
        }
    }
}

/// The cells of a lightweight spaceship one generation after
/// `lwss_rel` (its first 12-cell phase), relative to the same anchor.
spec fn lwss_phase1_rel(dx: int, dy: int) -> bool {
    (dx == 1 && dy == -1) || (dx == 2 && dy == -1) || (dx == 0 && dy == 0) || (dx == 1 && dy == 0)
        || (dx == 2 && dy == 0) || (dx == 3 && dy == 0) || (dx == -1 && dy == 1) || (dx == 0 && dy
        == 1) || (dx == 2 && dy == 1) || (dx == 3 && dy == 1) || (dx == 0 && dy == 2) || (dx == 1
        && dy == 2)
}

/// The cells of a lightweight spaceship two generations after
/// `lwss_rel` (the mirrored 9-cell phase), relative to the same anchor.
spec fn lwss_phase2_rel(dx: int, dy: int) -> bool {
    (dx == 0 && dy == -1) || (dx == 3 && dy == -1) || (dx == -1 && dy == 0) || (dx == -1 && dy
        == 1) || (dx == 3 && dy == 1) || (dx == -1 && dy == 2) || (dx == 0 && dy == 2) || (dx == 1
        && dy == 2) || (dx == 2 && dy == 2)
}

/// The cells of a lightweight spaceship three generations after
/// `lwss_rel` (its second 12-cell phase), relative to the same anchor.
spec fn lwss_phase3_rel(dx: int, dy: int) -> bool {
    (dx == -1 && dy == 0) || (dx == 0 && dy == 0) || (dx == -2 && dy == 1) || (dx == -1 && dy == 1)
        || (dx == 1 && dy == 1) || (dx == 2 && dy == 1) || (dx == -1 && dy == 2) || (dx == 0 && dy
        == 2) || (dx == 1 && dy == 2) || (dx == 2 && dy == 2) || (dx == 0 && dy == 3) || (dx == 1
        && dy == 3)
}

/// A lightweight spaceship is a horizontal spaceship: a grid holding
/// exactly one, far enough from the edges to run unobstructed, holds
/// after four steps exactly the same spaceship moved two cells to the
/// left.
#[verifier::rlimit(50)]
pub proof fn lemma_lwss_translates(s: Seq<bool>, x: int, y: int)
    requires
        s.len() == CELL_COUNT as nat,
        2 <= x,
        x + 4 < WIDTH as int,
        1 <= y,
        y + 3 < HEIGHT as int,
        forall|ax: int, ay: int|
            #[trigger] cell(s, ax, ay) == (in_bounds(ax, ay) && lwss_rel(ax - x, ay - y)),
    ensures
        forall|ax: int, ay: int|
            #[trigger] cell(step_spec(step_spec(step_spec(step_spec(s)))), ax, ay) == (in_bounds(
                ax,
                ay,
            ) && lwss_rel(ax - (x - 2), ay - y)),
{
    let s1 = step_spec(s);
    let s2 = step_spec(s1);
    let s3 = step_spec(s2);
    assert forall|ax: int, ay: int|
        #[trigger] cell(s1, ax, ay) == (in_bounds(ax, ay) && lwss_phase1_rel(ax - x, ay - y)) by {
        if in_bounds(ax, ay) {
            lemma_step_spec_cell(s, ax, ay);
        }
    }
    assert forall|ax: int, ay: int|
        #[trigger] cell(s2, ax, ay) == (in_bounds(ax, ay) && lwss_phase2_rel(ax - x, ay - y)) by {
        if in_bounds(ax, ay) {
            lemma_step_spec_cell(s1, ax, ay);
        }
    }
    assert forall|ax: int, ay: int|
        #[trigger] cell(s3, ax, ay) == (in_bounds(ax, ay) && lwss_phase3_rel(ax - x, ay - y)) by {
        if in_bounds(ax, ay) {
            lemma_step_spec_cell(s2, ax, ay);
        }
    }
    assert forall|ax: int, ay: int|
        #[trigger] cell(step_spec(s3), ax, ay) == (in_bounds(ax, ay) && lwss_rel(
        ax - (x - 2),
        ay - y,
    )) by {
        if in_bounds(ax, ay) {
            lemma_step_spec_cell(s3, ax, ay);
        }
    }
}

} // verus!
