use game_of_life::grid::Grid;
use game_of_life::grid::set_alive;
use game_of_life::raster::draw;
use game_of_life::raster::point;
use game_of_life::raster::BUF_LEN;
use game_of_life::raster::DEAD_COLOR;

const BACKGROUND: u32 = 0x1B1036;
const BUF_SIDE: usize = 500;

fn fresh_buffer() -> Vec<u32> {
    vec![0xABCDEF; BUF_LEN]
}

fn pixel(buffer: &[u32], px: usize, py: usize) -> u32 {
    buffer[py * BUF_SIDE + px]
}

#[test]
fn background_color_is_the_dark_purple() {
    assert_eq!(DEAD_COLOR, BACKGROUND);
}

#[test]
fn drawing_a_dead_grid_fills_the_background() {
    let g = Grid::new();
    let mut buffer = fresh_buffer();
    draw(&mut buffer, &g);
    assert!(buffer.iter().all(|&c| c == BACKGROUND));
}

#[test]
fn one_live_cell_at_the_origin_paints_one_block() {
    let mut g = Grid::new();
    set_alive(&mut g, 0, 0);
    let mut buffer = fresh_buffer();
    draw(&mut buffer, &g);
    for py in 0..BUF_SIDE {
        for px in 0..BUF_SIDE {
            if px < 5 && py < 5 {
                assert_eq!(pixel(&buffer, px, py), 0xFFFF00);
            } else {
                assert_eq!(pixel(&buffer, px, py), BACKGROUND);
            }
        }
    }
}

#[test]
fn palette_index_follows_the_cell_coordinates() {
    let mut g = Grid::new();
    set_alive(&mut g, 3, 2);
    let mut buffer = fresh_buffer();
    draw(&mut buffer, &g);
    // (3 + 2) % 8 = 5 picks the sixth palette entry.
    for py in 10..15 {
        for px in 15..20 {
            assert_eq!(pixel(&buffer, px, py), 0xAAFF00);
        }
    }
    assert_eq!(pixel(&buffer, 14, 10), BACKGROUND);
    assert_eq!(pixel(&buffer, 15, 9), BACKGROUND);
    assert_eq!(pixel(&buffer, 20, 10), BACKGROUND);
    assert_eq!(pixel(&buffer, 15, 15), BACKGROUND);
}

#[test]
fn point_fills_exactly_one_scaled_block() {
    let mut buffer = fresh_buffer();
    point(&mut buffer, 7, 9, 0x123456);
    for py in 0..BUF_SIDE {
        for px in 0..BUF_SIDE {
            if (35..40).contains(&px) && (45..50).contains(&py) {
                assert_eq!(pixel(&buffer, px, py), 0x123456);
            } else {
                assert_eq!(pixel(&buffer, px, py), 0xABCDEF);
            }
        }
    }
}

#[test]
fn draw_overwrites_the_previous_frame() {
    let mut live = Grid::new();
    set_alive(&mut live, 40, 40);
    let mut buffer = fresh_buffer();
    draw(&mut buffer, &live);
    assert_ne!(pixel(&buffer, 200, 200), BACKGROUND);
    let empty = Grid::new();
    draw(&mut buffer, &empty);
    assert!(buffer.iter().all(|&c| c == BACKGROUND));
}
