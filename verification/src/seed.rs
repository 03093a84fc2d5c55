//! Decorative start configurations: fixed lists of pattern placements
//! whose net effect on the grid is the union of the placed cells.

use vstd::prelude::*;
use crate::grid::{Grid, cell, in_bounds};
use crate::patterns::{
    glider_rel, blinker_rel, block_rel, beehive_rel, loaf_rel, boat_rel, toad_rel, beacon_rel,
    lwss_rel, add_glider, add_blinker, add_block, add_beehive, add_loaf, add_boat, add_toad,
    add_beacon, add_lwss,
};

verus! {

/// The cells that `add_to_random_positions` turns alive.
pub open spec fn random_positions_cells(ax: int, ay: int) -> bool {
    glider_rel(ax - 80, ay - 10) || block_rel(ax - 75, ay - 15) || beehive_rel(ax - 65, ay - 35)
        || blinker_rel(ax - 55, ay - 40) || loaf_rel(ax - 25, ay - 60) || boat_rel(ax - 15, ay - 70)
        || beacon_rel(ax - 45, ay - 60) || toad_rel(ax - 70, ay - 70) || lwss_rel(ax - 5, ay - 90)
}

/// The cells that `setup_initial_pattern` turns alive.
pub open spec fn setup_initial_cells(ax: int, ay: int) -> bool {
    block_rel(ax - 4, ay - 4) || beehive_rel(ax - 16, ay - 4) || loaf_rel(ax - 30, ay - 4)
        || boat_rel(ax - 45, ay - 4) || blinker_rel(ax - 4, ay - 20) || toad_rel(ax - 16, ay - 20)
        || beacon_rel(ax - 30, ay - 20) || glider_rel(ax - 4, ay - 36) || lwss_rel(ax - 16, ay - 36)
        || glider_rel(ax - 60, ay - 15) || block_rel(ax - 70, ay - 25) || lwss_rel(
        ax - 50,
        ay - 50,
    ) || blinker_rel(ax - 40, ay - 10) || beacon_rel(ax - 20, ay - 50) || boat_rel(ax - 35, ay - 30)
        || random_positions_cells(ax, ay)
}

/// The cells that `fill_more_patterns` turns alive.
pub open spec fn fill_more_cells(ax: int, ay: int) -> bool {
    toad_rel(ax - 17, ay - 72) || glider_rel(ax - 10, ay - 49) || loaf_rel(ax - 72, ay - 51)
        || toad_rel(ax - 16, ay - 43) || beacon_rel(ax - 32, ay - 57) || glider_rel(
        ax - 32,
        ay - 81,
    ) || beehive_rel(ax - 68, ay - 11) || glider_rel(ax - 92, ay - 79) || beacon_rel(
        ax - 77,
        ay - 25,
    ) || block_rel(ax - 94, ay - 55) || beacon_rel(ax - 57, ay - 16) || blinker_rel(
        ax - 49,
        ay - 52,
    ) || beehive_rel(ax - 35, ay - 50) || block_rel(ax - 7, ay - 34) || boat_rel(ax - 73, ay - 78)
        || loaf_rel(ax - 85, ay - 24) || beehive_rel(ax - 27, ay - 43) || boat_rel(ax - 7, ay - 8)
        || glider_rel(ax - 38, ay - 82) || loaf_rel(ax - 89, ay - 32) || lwss_rel(ax - 44, ay - 40)
        || loaf_rel(ax - 3, ay - 81) || blinker_rel(ax - 95, ay - 16) || block_rel(ax - 53, ay - 23)
        || loaf_rel(ax - 59, ay - 14) || lwss_rel(ax - 19, ay - 27) || loaf_rel(ax - 34, ay - 54)
        || blinker_rel(ax - 16, ay - 24) || beehive_rel(ax - 4, ay - 32) || blinker_rel(
        ax - 47,
        ay - 8,
    ) || toad_rel(ax - 28, ay - 72) || boat_rel(ax - 68, ay - 52) || block_rel(ax - 70, ay - 46)
        || beehive_rel(ax - 47, ay - 45) || beehive_rel(ax - 79, ay - 9) || boat_rel(
        ax - 8,
        ay - 35,
    ) || loaf_rel(ax - 56, ay - 14) || boat_rel(ax - 91, ay - 16) || beehive_rel(ax - 55, ay - 31)
        || boat_rel(ax - 9, ay - 49) || boat_rel(ax - 6, ay - 69) || loaf_rel(ax - 87, ay - 19)
        || beacon_rel(ax - 48, ay - 88) || loaf_rel(ax - 1, ay - 25) || beehive_rel(ax - 14, ay - 7)
        || boat_rel(ax - 76, ay - 81) || toad_rel(ax - 10, ay - 27) || boat_rel(ax - 90, ay - 42)
        || lwss_rel(ax - 83, ay - 70) || block_rel(ax - 31, ay - 23) || blinker_rel(
        ax - 49,
        ay - 19,
    ) || beehive_rel(ax - 10, ay - 24) || blinker_rel(ax - 35, ay - 67) || beehive_rel(
        ax - 92,
        ay - 76,
    ) || lwss_rel(ax - 77, ay - 26) || blinker_rel(ax - 95, ay - 79) || beehive_rel(ax - 7, ay - 39)
        || glider_rel(ax - 55, ay - 70) || beacon_rel(ax - 78, ay - 62) || loaf_rel(
        ax - 89,
        ay - 54,
    )
}

/// Scatter a further fixed handful of patterns over the grid.
#[verifier::rlimit(30)]
pub fn add_to_random_positions(grid: &mut Grid)
    requires
        old(grid).wf(),
    ensures
        final(grid).wf(),
        forall|ax: int, ay: int|
            #[trigger] cell(final(grid)@, ax, ay) == (cell(old(grid)@, ax, ay) || (in_bounds(
                ax,
                ay,
            ) && random_positions_cells(ax, ay))),
{
    add_glider(grid, 80, 10);
    add_block(grid, 75, 15);
    add_beehive(grid, 65, 35);
    add_blinker(grid, 55, 40);
    add_loaf(grid, 25, 60);
    add_boat(grid, 15, 70);
    add_beacon(grid, 45, 60);
    add_toad(grid, 70, 70);
    add_lwss(grid, 5, 90);
}

/// Seed the opening showcase: one of each still life, the oscillators,
/// the spaceships, and the scattered handful on top.
#[verifier::rlimit(50)]
pub fn setup_initial_pattern(grid: &mut Grid)
    requires
        old(grid).wf(),
    ensures
        final(grid).wf(),
        forall|ax: int, ay: int|
            #[trigger] cell(final(grid)@, ax, ay) == (cell(old(grid)@, ax, ay) || (in_bounds(
                ax,
                ay,
            ) && setup_initial_cells(ax, ay))),
{
    add_block(grid, 4, 4);
    add_beehive(grid, 16, 4);
    add_loaf(grid, 30, 4);
    add_boat(grid, 45, 4);
    add_blinker(grid, 4, 20);
    add_toad(grid, 16, 20);
    add_beacon(grid, 30, 20);
    add_glider(grid, 4, 36);
    add_lwss(grid, 16, 36);
    add_glider(grid, 60, 15);
    add_block(grid, 70, 25);
    add_lwss(grid, 50, 50);
    add_blinker(grid, 40, 10);
    add_beacon(grid, 20, 50);
    add_boat(grid, 35, 30);
    add_to_random_positions(grid);
}

/// Strew a long fixed list of further patterns across the grid.
#[verifier::rlimit(100)]
pub fn fill_more_patterns(grid: &mut Grid)
    requires
        old(grid).wf(),
    ensures
        final(grid).wf(),
        forall|ax: int, ay: int|
            #[trigger] cell(final(grid)@, ax, ay) == (cell(old(grid)@, ax, ay) || (in_bounds(
                ax,
                ay,
            ) && fill_more_cells(ax, ay))),
{
    add_toad(grid, 17, 72);
    add_glider(grid, 10, 49);
    add_loaf(grid, 72, 51);
    add_toad(grid, 16, 43);
    add_beacon(grid, 32, 57);
    add_glider(grid, 32, 81);
    add_beehive(grid, 68, 11);
    add_glider(grid, 92, 79);
    add_beacon(grid, 77, 25);
    add_block(grid, 94, 55);
    add_beacon(grid, 57, 16);
    add_blinker(grid, 49, 52);
    add_beehive(grid, 35, 50);
    add_block(grid, 7, 34);
    add_boat(grid, 73, 78);
    add_loaf(grid, 85, 24);
    add_beehive(grid, 27, 43);
    add_boat(grid, 7, 8);
    add_glider(grid, 38, 82);
    add_loaf(grid, 89, 32);
    add_lwss(grid, 44, 40);
    add_loaf(grid, 3, 81);
    add_blinker(grid, 95, 16);
    add_block(grid, 53, 23);
    add_loaf(grid, 59, 14);
    add_lwss(grid, 19, 27);
    add_loaf(grid, 34, 54);
    add_blinker(grid, 16, 24);
    add_beehive(grid, 4, 32);
    add_blinker(grid, 47, 8);
    add_toad(grid, 28, 72);
    add_boat(grid, 68, 52);
    add_block(grid, 70, 46);
    add_beehive(grid, 47, 45);
    add_beehive(grid, 79, 9);
    add_boat(grid, 8, 35);
    add_loaf(grid, 56, 14);
    add_boat(grid, 91, 16);
    add_beehive(grid, 55, 31);
    add_boat(grid, 9, 49);
    add_boat(grid, 6, 69);
    add_loaf(grid, 87, 19);
    add_beacon(grid, 48, 88);
    add_loaf(grid, 1, 25);
    add_beehive(grid, 14, 7);
    add_boat(grid, 76, 81);
    add_toad(grid, 10, 27);
    add_boat(grid, 90, 42);
    add_lwss(grid, 83, 70);
    add_block(grid, 31, 23);
    add_blinker(grid, 49, 19);
    add_beehive(grid, 10, 24);
    add_blinker(grid, 35, 67);
    add_beehive(grid, 92, 76);
    add_lwss(grid, 77, 26);
    add_blinker(grid, 95, 79);
    add_beehive(grid, 7, 39);
    add_glider(grid, 55, 70);
    add_beacon(grid, 78, 62);
    add_loaf(grid, 89, 54);
}

} // verus!
