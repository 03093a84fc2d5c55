use game_of_life::grid::Grid;
use game_of_life::grid::set_alive;
use game_of_life::patterns::add_blinker;
use game_of_life::patterns::add_block;
use game_of_life::patterns::add_glider;
use game_of_life::patterns::add_lwss;
use game_of_life::sim::count_neighbors;
use game_of_life::sim::step;

fn grids_equal(a: &Grid, b: &Grid) -> bool {
    for y in 0..100 {
        for x in 0..100 {
            if a.get(x, y) != b.get(x, y) {
                return false;
            }
        }
    }
    true
}

fn live_count(g: &Grid) -> usize {
    let mut n = 0;
    for y in 0..100 {
        for x in 0..100 {
            if g.get(x, y) {
                n += 1;
            }
        }
    }
    n
}

#[test]
fn step_preserves_dimensions() {
    let g = Grid::new();
    let next = step(&g);
    assert_eq!(next.cells.len(), 100 * 100);
    let again = step(&next);
    assert_eq!(again.cells.len(), 100 * 100);
}

#[test]
fn empty_grid_stays_empty() {
    let g = Grid::new();
    let next = step(&g);
    assert_eq!(live_count(&next), 0);
}

#[test]
fn underpopulation_lone_cell_dies() {
    let mut g = Grid::new();
    set_alive(&mut g, 50, 50);
    let next = step(&g);
    assert!(!next.get(50, 50));
    assert_eq!(live_count(&next), 0);
}

#[test]
fn underpopulation_pair_dies() {
    let mut g = Grid::new();
    set_alive(&mut g, 50, 50);
    set_alive(&mut g, 51, 50);
    let next = step(&g);
    assert_eq!(live_count(&next), 0);
}

#[test]
fn overpopulation_center_of_plus_dies() {
    let mut g = Grid::new();
    set_alive(&mut g, 50, 50);
    set_alive(&mut g, 49, 50);
    set_alive(&mut g, 51, 50);
    set_alive(&mut g, 50, 49);
    set_alive(&mut g, 50, 51);
    assert_eq!(count_neighbors(&g, 50, 50), 4);
    let next = step(&g);
    assert!(!next.get(50, 50));
}

#[test]
fn overpopulation_center_of_full_box_dies() {
    let mut g = Grid::new();
    for y in 49..52 {
        for x in 49..52 {
            set_alive(&mut g, x, y);
        }
    }
    assert_eq!(count_neighbors(&g, 50, 50), 8);
    let next = step(&g);
    assert!(!next.get(50, 50));
}

#[test]
fn birth_with_exactly_three_neighbors() {
    let mut g = Grid::new();
    set_alive(&mut g, 50, 50);
    set_alive(&mut g, 51, 50);
    set_alive(&mut g, 50, 51);
    assert!(!g.get(51, 51));
    let next = step(&g);
    assert!(next.get(51, 51));
}

#[test]
fn survival_with_two_neighbors() {
    let mut g = Grid::new();
    set_alive(&mut g, 49, 49);
    set_alive(&mut g, 50, 50);
    set_alive(&mut g, 51, 51);
    let next = step(&g);
    assert!(next.get(50, 50));
    assert!(!next.get(49, 49));
    assert!(!next.get(51, 51));
}

#[test]
fn count_neighbors_truncates_at_corner() {
    let mut g = Grid::new();
    set_alive(&mut g, 0, 1);
    set_alive(&mut g, 1, 0);
    set_alive(&mut g, 1, 1);
    assert_eq!(count_neighbors(&g, 0, 0), 3);
    assert_eq!(count_neighbors(&g, 99, 99), 0);
}

#[test]
fn count_neighbors_ignores_the_cell_itself() {
    let mut g = Grid::new();
    set_alive(&mut g, 50, 50);
    assert_eq!(count_neighbors(&g, 50, 50), 0);
}

#[test]
fn block_is_stable() {
    let mut g = Grid::new();
    add_block(&mut g, 4, 4);
    let next = step(&g);
    assert!(grids_equal(&g, &next));
}

#[test]
fn block_is_stable_at_the_far_corner() {
    let mut g = Grid::new();
    add_block(&mut g, 98, 98);
    let next = step(&g);
    assert!(grids_equal(&g, &next));
}

#[test]
fn blinker_has_period_two() {
    let mut g = Grid::new();
    add_blinker(&mut g, 10, 10);
    let one = step(&g);
    assert!(one.get(11, 9));
    assert!(one.get(11, 10));
    assert!(one.get(11, 11));
    assert_eq!(live_count(&one), 3);
    let two = step(&one);
    assert!(grids_equal(&g, &two));
}

#[test]
fn lwss_translates_left_every_four_steps() {
    let mut g = Grid::new();
    add_lwss(&mut g, 50, 50);
    let mut current = g;
    for _ in 0..4 {
        current = step(&current);
    }
    let mut expected = Grid::new();
    add_lwss(&mut expected, 48, 50);
    assert!(grids_equal(&current, &expected));
}

#[test]
fn glider_translates_diagonally_every_four_steps() {
    let mut g = Grid::new();
    add_glider(&mut g, 10, 10);
    let mut current = g;
    for _ in 0..4 {
        current = step(&current);
    }
    let mut expected = Grid::new();
    add_glider(&mut expected, 11, 11);
    assert!(grids_equal(&current, &expected));
}
