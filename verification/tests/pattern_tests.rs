use game_of_life::grid::Grid;
use game_of_life::patterns::add_beacon;
use game_of_life::patterns::add_beehive;
use game_of_life::patterns::add_blinker;
use game_of_life::patterns::add_block;
use game_of_life::patterns::add_boat;
use game_of_life::patterns::add_glider;
use game_of_life::patterns::add_glider_gun;
use game_of_life::patterns::add_loaf;
use game_of_life::patterns::add_lwss;
use game_of_life::patterns::add_toad;
use game_of_life::seed::add_to_random_positions;
use game_of_life::seed::fill_more_patterns;
use game_of_life::seed::setup_initial_pattern;

fn live_cells(g: &Grid) -> Vec<(usize, usize)> {
    let mut cells = Vec::new();
    for y in 0..100 {
        for x in 0..100 {
            if g.get(x, y) {
                cells.push((x, y));
            }
        }
    }
    cells
}

fn expect_exactly(g: &Grid, expected: &mut Vec<(usize, usize)>) {
    let mut actual = live_cells(g);
    actual.sort();
    expected.sort();
    assert_eq!(actual, *expected);
}

fn shifted(offsets: &[(usize, usize)], x: usize, y: usize) -> Vec<(usize, usize)> {
    offsets.iter().map(|&(dx, dy)| (x + dx, y + dy)).collect()
}

#[test]
fn glider_cells() {
    let mut g = Grid::new();
    add_glider(&mut g, 10, 20);
    expect_exactly(
        &g,
        &mut shifted(&[(1, 0), (2, 1), (0, 2), (1, 2), (2, 2)], 10, 20),
    );
}

#[test]
fn blinker_cells() {
    let mut g = Grid::new();
    add_blinker(&mut g, 10, 20);
    expect_exactly(&g, &mut shifted(&[(0, 0), (1, 0), (2, 0)], 10, 20));
}

#[test]
fn block_cells() {
    let mut g = Grid::new();
    add_block(&mut g, 10, 20);
    expect_exactly(&g, &mut shifted(&[(0, 0), (1, 0), (0, 1), (1, 1)], 10, 20));
}

#[test]
fn beehive_cells() {
    let mut g = Grid::new();
    add_beehive(&mut g, 10, 20);
    expect_exactly(
        &g,
        &mut shifted(&[(1, 0), (2, 0), (0, 1), (3, 1), (1, 2), (2, 2)], 10, 20),
    );
}

#[test]
fn loaf_cells() {
    let mut g = Grid::new();
    add_loaf(&mut g, 10, 20);
    expect_exactly(
        &g,
        &mut shifted(
            &[(1, 0), (2, 0), (0, 1), (3, 1), (1, 2), (3, 2), (2, 3)],
            10,
            20,
        ),
    );
}

#[test]
fn boat_cells() {
    let mut g = Grid::new();
    add_boat(&mut g, 10, 20);
    expect_exactly(
        &g,
        &mut shifted(&[(0, 0), (1, 0), (0, 1), (2, 1), (1, 2)], 10, 20),
    );
}

#[test]
fn toad_cells() {
    let mut g = Grid::new();
    add_toad(&mut g, 10, 20);
    expect_exactly(
        &g,
        &mut shifted(&[(1, 0), (2, 0), (3, 0), (0, 1), (1, 1), (2, 1)], 10, 20),
    );
}

#[test]
fn beacon_cells() {
    let mut g = Grid::new();
    add_beacon(&mut g, 10, 20);
    expect_exactly(
        &g,
        &mut shifted(&[(0, 0), (1, 0), (0, 1), (3, 2), (2, 3), (3, 3)], 10, 20),
    );
}

#[test]
fn lwss_cells() {
    let mut g = Grid::new();
    add_lwss(&mut g, 10, 20);
    expect_exactly(
        &g,
        &mut shifted(
            &[
                (0, 0),
                (1, 0),
                (2, 0),
                (3, 0),
                (0, 1),
                (4, 1),
                (0, 2),
                (1, 3),
                (4, 3),
            ],
            10,
            20,
        ),
    );
}

#[test]
fn glider_gun_has_thirty_six_cells() {
    let mut g = Grid::new();
    add_glider_gun(&mut g, 10, 60);
    assert_eq!(live_cells(&g).len(), 36);
    assert!(g.get(10, 64));
    assert!(g.get(11, 65));
    assert!(g.get(45, 62));
    assert!(g.get(45, 63));
    assert!(!g.get(10, 60));
}

#[test]
fn glider_gun_clips_at_the_boundary() {
    let mut g = Grid::new();
    // Anchored at (90, 95) only offsets with dx < 10 and dy < 5 fit:
    // (0, 4) and (1, 4).
    add_glider_gun(&mut g, 90, 95);
    expect_exactly(&g, &mut vec![(90, 99), (91, 99)]);
}

#[test]
fn blinker_clips_at_the_right_edge() {
    let mut g = Grid::new();
    add_blinker(&mut g, 99, 50);
    expect_exactly(&g, &mut vec![(99, 50)]);
}

#[test]
fn placement_far_outside_the_grid_sets_nothing() {
    let mut g = Grid::new();
    add_glider(&mut g, 100, 100);
    add_block(&mut g, usize::MAX, usize::MAX);
    assert_eq!(live_cells(&g).len(), 0);
}

#[test]
fn placements_union_and_never_unset() {
    let mut g = Grid::new();
    add_blinker(&mut g, 5, 5);
    add_block(&mut g, 5, 5);
    // The block overlaps the blinker at (5,5) and (6,5); the union has
    // 3 + 4 - 2 cells.
    expect_exactly(&g, &mut vec![(5, 5), (6, 5), (7, 5), (5, 6), (6, 6)]);
    add_block(&mut g, 5, 5);
    expect_exactly(&g, &mut vec![(5, 5), (6, 5), (7, 5), (5, 6), (6, 6)]);
}

#[test]
fn setup_initial_pattern_places_the_showcase() {
    let mut g = Grid::new();
    setup_initial_pattern(&mut g);
    assert!(g.get(4, 4)); // block
    assert!(g.get(17, 4)); // beehive
    assert!(g.get(32, 7)); // loaf
    assert!(g.get(4, 20)); // blinker
    assert!(g.get(81, 10)); // glider from the scattered handful
    assert!(!g.get(0, 0));
    assert!(!g.get(99, 99));
}

#[test]
fn add_to_random_positions_places_its_handful() {
    let mut g = Grid::new();
    add_to_random_positions(&mut g);
    assert!(g.get(81, 10)); // glider at (80, 10)
    assert!(g.get(75, 15)); // block at (75, 15)
    assert!(g.get(6, 93)); // lwss at (5, 90)
    assert!(!g.get(50, 50));
}

#[test]
fn fill_more_patterns_places_its_list() {
    let mut g = Grid::new();
    fill_more_patterns(&mut g);
    assert!(g.get(18, 72)); // toad at (17, 72)
    assert!(g.get(11, 49)); // glider at (10, 49)
    assert!(g.get(94, 55)); // block at (94, 55)
    assert!(g.get(91, 57)); // loaf at (89, 54)
    assert!(!g.get(99, 0));
}
