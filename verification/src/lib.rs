//! Conway's Game of Life on a fixed 100 x 100 grid: a verified step
//! function, a verified rasterizer that paints each cell as a 5 x 5
//! pixel block, and a library of classic patterns with bounds-clipped
//! placement.

pub mod grid;
pub mod sim;
pub mod raster;
pub mod patterns;
pub mod seed;
pub mod laws;
