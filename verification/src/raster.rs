//! The rasterizer: a grid becomes a flat pixel buffer, one SCALE x SCALE
//! block of identical pixels per cell.

use vstd::prelude::*;
use crate::grid::{Grid, cell, in_bounds, WIDTH, HEIGHT, SCALE};

verus! {

/// Pixel columns of the buffer.
pub const BUF_WIDTH: usize = WIDTH * SCALE;

/// Pixel rows of the buffer.
pub const BUF_HEIGHT: usize = HEIGHT * SCALE;

/// Number of pixels in the buffer.
pub const BUF_LEN: usize = WIDTH * SCALE * HEIGHT * SCALE;

/// Packed 0xRRGGBB color of a dead cell: a dark purple background.
pub const DEAD_COLOR: u32 = 0x1B1036;

/// Number of colors in the palette for live cells.
pub const PALETTE_LEN: usize = 8;

/// The fixed palette for live cells, by index.
pub open spec fn palette_spec(i: int) -> u32 {
    if i == 0 {
        0xFFFF00
    } else if i == 1 {
        0x00FFAA
    } else if i == 2 {
        0xFF00FF
    } else if i == 3 {
        0x00FFFF
    } else if i == 4 {
        0xFFAA00
    } else if i == 5 {
        0xAAFF00
    } else if i == 6 {
        0xFF6666
    } else {
        0x66AAFF
    }
}

/// The color of the cell `(x, y)`: dead cells show the background, live
/// cells pick a palette entry from their coordinates.
pub open spec fn cell_color(s: Seq<bool>, x: int, y: int) -> u32 {
    if cell(s, x, y) {
        palette_spec((x + y) % (PALETTE_LEN as int))
    } else {
        DEAD_COLOR
    }
}

/// The color owed to the buffer pixel `(px, py)`: the color of the cell
/// whose block it lies in.
pub open spec fn pixel_color(s: Seq<bool>, px: int, py: int) -> u32 {
    cell_color(s, px / (SCALE as int), py / (SCALE as int))
}

/// The pixel `(px, py)` of the row-major buffer `b`.
pub open spec fn pixel_at(b: Seq<u32>, px: int, py: int) -> u32 {
    b[py * (BUF_WIDTH as int) + px]
}

/// Whether the pixel `(px, py)` lies in the block of the cell `(x, y)`.
pub open spec fn covers(x: int, y: int, px: int, py: int) -> bool {
    x * (SCALE as int) <= px < (x + 1) * (SCALE as int) && y * (SCALE as int) <= py < (y + 1) * (
    SCALE as int)
}

/// A pixel lies in the block of the cell its coordinates divide down to,
/// and of no other.
proof fn lemma_covers_div(x: int, y: int, px: int, py: int)
    requires
        0 <= px < BUF_WIDTH as int,
        0 <= py < BUF_HEIGHT as int,
    ensures
        covers(x, y, px, py) <==> (px / (SCALE as int) == x && py / (SCALE as int) == y),
{
    if covers(x, y, px, py) {
        vstd::arithmetic::div_mod::lemma_fundamental_div_mod_converse(
            px,
            SCALE as int,
            x,
            px - x * (SCALE as int),
        );
        vstd::arithmetic::div_mod::lemma_fundamental_div_mod_converse(
            py,
            SCALE as int,
            y,
            py - y * (SCALE as int),
        );
    }
    if px / (SCALE as int) == x && py / (SCALE as int) == y {
        vstd::arithmetic::div_mod::lemma_fundamental_div_mod(px, SCALE as int);
        vstd::arithmetic::div_mod::lemma_mod_pos_bound(px, SCALE as int);
        vstd::arithmetic::div_mod::lemma_fundamental_div_mod(py, SCALE as int);
        vstd::arithmetic::div_mod::lemma_mod_pos_bound(py, SCALE as int);
    }
}

/// The cell coordinates a buffer pixel divides down to are in bounds.
proof fn lemma_pixel_cell_bounds(px: int, py: int)
    requires
        0 <= px < BUF_WIDTH as int,
        0 <= py < BUF_HEIGHT as int,
    ensures
        in_bounds(px / (SCALE as int), py / (SCALE as int)),
{
    vstd::arithmetic::div_mod::lemma_fundamental_div_mod(px, SCALE as int);
    vstd::arithmetic::div_mod::lemma_mod_pos_bound(px, SCALE as int);
    vstd::arithmetic::div_mod::lemma_fundamental_div_mod(py, SCALE as int);
    vstd::arithmetic::div_mod::lemma_mod_pos_bound(py, SCALE as int);
    assert(0 <= px / (SCALE as int) < WIDTH as int) by (nonlinear_arith)
        requires
            0 <= px < 500,
            px == 5 * (px / 5) + px % 5,
            0 <= px % 5 < 5,
    ;
    assert(0 <= py / (SCALE as int) < HEIGHT as int) by (nonlinear_arith)
        requires
            0 <= py < 500,
            py == 5 * (py / 5) + py % 5,
            0 <= py % 5 < 5,
    ;
}

/// Look a live cell's palette color up from its coordinates.
fn palette(i: usize) -> (c: u32)
    requires
        i < PALETTE_LEN,
    ensures
        c == palette_spec(i as int),
{
    if i == 0 {
        0xFFFF00
    } else if i == 1 {
        0x00FFAA
    } else if i == 2 {
        0xFF00FF
    } else if i == 3 {
        0x00FFFF
    } else if i == 4 {
        0xFFAA00
    } else if i == 5 {
        0xAAFF00
    } else if i == 6 {
        0xFF6666
    } else {
        0x66AAFF
    }
}

/// Fill the SCALE x SCALE pixel block of the cell `(x, y)` with one
/// color; every pixel outside the block keeps its old value.
pub fn point(buffer: &mut Vec<u32>, x: usize, y: usize, color: u32)
    requires
        old(buffer).len() == BUF_LEN,
        x < WIDTH,
        y < HEIGHT,
    ensures
        final(buffer).len() == BUF_LEN,
        forall|px: int, py: int|
            0 <= px < BUF_WIDTH as int && 0 <= py < BUF_HEIGHT as int ==> #[trigger] pixel_at(
                final(buffer)@,
                px,
                py,
            ) == (if covers(x as int, y as int, px, py) {
                color
            } else {
                pixel_at(old(buffer)@, px, py)
            }),
{
    let mut dy: usize = 0;
    while dy < SCALE
        invariant
            buffer.len() == BUF_LEN,
            x < WIDTH,
            y < HEIGHT,
            dy <= SCALE,
            forall|px: int, py: int|
                0 <= px < BUF_WIDTH as int && 0 <= py < BUF_HEIGHT as int ==> #[trigger] pixel_at(
                    buffer@,
                    px,
                    py,
                ) == (if covers(x as int, y as int, px, py) && py < y * (SCALE as int) + dy {
                    color
                } else {
                    pixel_at(old(buffer)@, px, py)
                }),
        decreases SCALE - dy,
    {
        let mut dx: usize = 0;
        while dx < SCALE
            invariant
                buffer.len() == BUF_LEN,
                x < WIDTH,
                y < HEIGHT,
                dy < SCALE,
                dx <= SCALE,
                forall|px: int, py: int|
                    0 <= px < BUF_WIDTH as int && 0 <= py < BUF_HEIGHT as int
                        ==> #[trigger] pixel_at(buffer@, px, py) == (if covers(
                        x as int,
                        y as int,
                        px,
                        py,
                    ) && (py < y * (SCALE as int) + dy || (py == y * (SCALE as int) + dy && px < x
                        * (SCALE as int) + dx)) {
                        color
                    } else {
                        pixel_at(old(buffer)@, px, py)
                    }),
            decreases SCALE - dx,
        {
            let px = x * SCALE + dx;
            let py = y * SCALE + dy;
            if px < WIDTH * SCALE && py < HEIGHT * SCALE {
                let ghost pre = buffer@;
                buffer[py * BUF_WIDTH + px] = color;
                proof {
                    assert forall|qx: int, qy: int|
                        0 <= qx < BUF_WIDTH as int && 0 <= qy
                            < BUF_HEIGHT as int implies #[trigger] pixel_at(buffer@, qx, qy) == (
                    if qx == px as int && qy == py as int {
                        color
                    } else {
                        pixel_at(pre, qx, qy)
                    }) by {
                        if qy * (BUF_WIDTH as int) + qx == (py as int) * (BUF_WIDTH as int)
                            + px as int {
                            assert(qy == py as int && qx == px as int);
                        }
                    }
                }
            }
            dx = dx + 1;
        }
        dy = dy + 1;
    }
}

/// Overwrite the whole buffer from the grid: every cell's block takes
/// that cell's color.
pub fn draw(buffer: &mut Vec<u32>, grid: &Grid)
    requires
        old(buffer).len() == BUF_LEN,
        grid.wf(),
    ensures
        final(buffer).len() == BUF_LEN,
        forall|px: int, py: int|
            0 <= px < BUF_WIDTH as int && 0 <= py < BUF_HEIGHT as int ==> #[trigger] pixel_at(
                final(buffer)@,
                px,
                py,
            ) == pixel_color(grid@, px, py),
{
    let mut y: usize = 0;
    while y < HEIGHT
        invariant
            buffer.len() == BUF_LEN,
            grid.wf(),
            y <= HEIGHT,
            forall|px: int, py: int|
                0 <= px < BUF_WIDTH as int && 0 <= py < BUF_HEIGHT as int && py / (SCALE as int)
                    < y ==> #[trigger] pixel_at(buffer@, px, py) == pixel_color(grid@, px, py),
        decreases HEIGHT - y,
    {
        let mut x: usize = 0;
        while x < WIDTH
            invariant
                buffer.len() == BUF_LEN,
                grid.wf(),
                y < HEIGHT,
                x <= WIDTH,
                forall|px: int, py: int|
                    0 <= px < BUF_WIDTH as int && 0 <= py < BUF_HEIGHT as int && (py / (
                    SCALE as int) < y || (py / (SCALE as int) == y && px / (SCALE as int) < x))
                        ==> #[trigger] pixel_at(buffer@, px, py) == pixel_color(grid@, px, py),
            decreases WIDTH - x,
        {
            let color = if grid.get(x, y) {
                palette((x + y) % PALETTE_LEN)
            } else {
                DEAD_COLOR
            };
            let ghost pre = buffer@;
            point(buffer, x, y, color);
            proof {
                assert forall|px: int, py: int|
                    0 <= px < BUF_WIDTH as int && 0 <= py < BUF_HEIGHT as int && (py / (
                    SCALE as int) < y || (py / (SCALE as int) == y && px / (SCALE as int) < x
                        + 1)) implies #[trigger] pixel_at(buffer@, px, py) == pixel_color(
                    grid@,
                    px,
                    py,
                ) by {
                    lemma_covers_div(x as int, y as int, px, py);
                    if covers(x as int, y as int, px, py) {
                        assert(pixel_at(buffer@, px, py) == color);
                        assert(pixel_color(grid@, px, py) == cell_color(
                            grid@,
                            x as int,
                            y as int,
                        ));
                    } else {
                        assert(pixel_at(buffer@, px, py) == pixel_at(pre, px, py));
                    }
                }
            }
            x = x + 1;
        }
        y = y + 1;
    }
    proof {
        assert forall|px: int, py: int|
            0 <= px < BUF_WIDTH as int && 0 <= py < BUF_HEIGHT as int implies #[trigger] pixel_at(
            buffer@,
            px,
            py,
        ) == pixel_color(grid@, px, py) by {
            lemma_pixel_cell_bounds(px, py);
        }
    }
}

/// Rasterizing an all-dead grid owes every pixel the background color.
pub proof fn lemma_dead_grid_renders_background(s: Seq<bool>, px: int, py: int)
    requires
        forall|x: int, y: int| !(#[trigger] cell(s, x, y)),
        0 <= px < BUF_WIDTH as int,
        0 <= py < BUF_HEIGHT as int,
    ensures
        pixel_color(s, px, py) == DEAD_COLOR,
{
}

/// With one live cell at the origin, exactly the SCALE x SCALE pixel
/// block at the top-left corner shows that cell's palette color; every
/// other pixel shows the background.
pub proof fn lemma_single_cell_renders_one_block(s: Seq<bool>, px: int, py: int)
    requires
        forall|x: int, y: int| #[trigger] cell(s, x, y) == (x == 0 && y == 0),
        0 <= px < BUF_WIDTH as int,
        0 <= py < BUF_HEIGHT as int,
    ensures
        pixel_color(s, px, py) == (if 0 <= px < SCALE as int && 0 <= py < SCALE as int {
            palette_spec(0)
        } else {
            DEAD_COLOR
        }),
{
    lemma_covers_div(0, 0, px, py);
    lemma_pixel_cell_bounds(px, py);
}

} // verus!
