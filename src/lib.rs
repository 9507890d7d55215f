//! Layout engine for a "life calendar": a grid of years or months from a birth
//! date to a life-expectancy horizon, laid out and coloured on a small canvas.
//!
//! The library computes what is to be drawn (cell positions, sizes, colours and
//! the primitives of each cell); a drawing surface is driven by the caller.

pub mod layout;
pub mod policy;
pub mod scene;
pub mod shapes;
pub mod temporal;

pub use layout::{
    cell_center, ceil_sqrt_of, circle_layout, diamond_layout, grid_with_cell_size, Container, Coord,
    GridGeometry, Point, CIRCLE_MIN_SIZE, CIRCLE_PADDING, DIAMOND_MIN_SIZE, DIAMOND_PADDING,
};
pub use scene::{fixed_grid_cells, month_cells, year_cells};
pub use policy::{cell_is_elapsed, month_cell_fill, year_cell_color, Color};
pub use shapes::{diamond_parts, Diamond, Shape, STROKE_WIDTH};
pub use temporal::{elapsed_months, elapsed_years, DateTime};
