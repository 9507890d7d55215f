//! Centred grids of square cells inside a rectangular container.

use vstd::prelude::*;

verus! {

/// A pixel position in the coordinates of the drawing surface.
#[derive(Clone, Copy, Debug, PartialEq, Eq, Structural)]
pub struct Point {
    pub x: i32,
    pub y: i32,
}

/// A rectangular region of the canvas: its top-left corner, width and height.
#[derive(Clone, Copy, Debug, PartialEq, Eq, Structural)]
pub struct Container {
    pub point: Point,
    pub width: u16,
    pub height: u16,
}

/// A canvas position wide enough to hold any cell of any grid.
#[derive(Clone, Copy, Debug, PartialEq, Eq, Structural)]
pub struct Coord {
    pub x: i64,
    pub y: i64,
}

/// Gap between two diamond cells.
pub const DIAMOND_PADDING: i64 = 5;

/// Smallest side of a diamond cell.
pub const DIAMOND_MIN_SIZE: i64 = 14;

/// Gap between two circle cells.
pub const CIRCLE_PADDING: i64 = 2;

/// Smallest diameter of a circle cell.
pub const CIRCLE_MIN_SIZE: i64 = 2;

/// Largest cell side or padding a grid is built with.
pub const MAX_CELL_SIDE: i64 = 0xFFFF;

/// Where a grid of square cells stands: cells of side `cell_size` separated by
/// `padding`, `columns` per row over `rows` rows, the first cell's corner at
/// (`start_x`, `start_y`), which is the container's corner moved by the
/// centring offsets.
#[derive(Clone, Copy, Debug, PartialEq, Eq, Structural)]
pub struct GridGeometry {
    pub cell_size: i64,
    pub padding: i64,
    pub columns: i64,
    pub rows: i64,
    pub offset_x: i64,
    pub offset_y: i64,
    pub start_x: i64,
    pub start_y: i64,
}

/// The mathematical content of a [`GridGeometry`].
pub ghost struct GridModel {
    pub cell_size: int,
    pub padding: int,
    pub columns: int,
    pub rows: int,
    pub offset_x: int,
    pub offset_y: int,
    pub start_x: int,
    pub start_y: int,
}

impl GridModel {
    /// Distance from one cell to the next, along either axis.
    pub open spec fn pitch(self) -> int {
        self.cell_size + self.padding
    }

    pub open spec fn total_width(self) -> int {
        self.columns * self.pitch()
    }

    pub open spec fn total_height(self) -> int {
        self.rows * self.pitch()
    }
}

impl GridGeometry {
    pub open spec fn view(&self) -> GridModel {
        GridModel {
            cell_size: self.cell_size as int,
            padding: self.padding as int,
            columns: self.columns as int,
            rows: self.rows as int,
            offset_x: self.offset_x as int,
            offset_y: self.offset_y as int,
            start_x: self.start_x as int,
            start_y: self.start_y as int,
        }
    }

    /// The bounds under which every cell position of the grid can be computed.
    pub open spec fn wf(&self) -> bool {
        &&& self.columns >= 1
        &&& 0 <= self.cell_size <= MAX_CELL_SIDE
        &&& 0 <= self.padding <= MAX_CELL_SIDE
        &&& -0x10_0000_0000_0000 <= self.start_x <= 0x10_0000_0000_0000
        &&& -0x10_0000_0000_0000 <= self.start_y <= 0x10_0000_0000_0000
    }
}

/// Half of `d`, rounded toward zero.
pub open spec fn half_toward_zero(d: int) -> int {
    if d >= 0 {
        d / 2
    } else {
        -((-d) / 2)
    }
}

pub open spec fn shorter_side(c: Container) -> int {
    if c.width <= c.height {
        c.width as int
    } else {
        c.height as int
    }
}

/// Grid of `unit_count` cells of side `cell_size`, `padding` apart: as many
/// columns as fit across the container (at least one), as many rows as the
/// cells need, and the whole centred in the container.
pub open spec fn grid_model(unit_count: nat, c: Container, cell_size: int, padding: int) -> GridModel {
    let pitch = cell_size + padding;
    let fit: int = c.width as int / pitch;
    let columns: int = if fit >= 1 {
        fit
    } else {
        1
    };
    let rows: int = (unit_count + columns - 1) / columns;
    let offset_x = half_toward_zero(c.width - columns * pitch);
    let offset_y = half_toward_zero(c.height - rows * pitch);
    GridModel {
        cell_size,
        padding,
        columns,
        rows,
        offset_x,
        offset_y,
        start_x: c.point.x + offset_x,
        start_y: c.point.y + offset_y,
    }
}

/// Side of a diamond cell: the shorter side of the container shared among half
/// the cells, but never under the minimum.
pub open spec fn diamond_cell_size(unit_count: nat, c: Container) -> int {
    let per_row: int = if unit_count / 2 >= 1 {
        (unit_count / 2) as int
    } else {
        1
    };
    let fit = shorter_side(c) / per_row;
    if fit >= DIAMOND_MIN_SIZE {
        fit
    } else {
        DIAMOND_MIN_SIZE as int
    }
}

pub open spec fn diamond_grid(unit_count: nat, c: Container) -> GridModel {
    grid_model(unit_count, c, diamond_cell_size(unit_count, c), DIAMOND_PADDING as int)
}

/// `r` is the square root of `n` rounded up: the least `r` with `n <= r * r`.
pub open spec fn is_ceil_sqrt(n: nat, r: nat) -> bool {
    n <= r * r && (r == 0 || (r - 1) * (r - 1) < n)
}

pub open spec fn ceil_sqrt(n: nat) -> nat {
    choose|r: nat| is_ceil_sqrt(n, r)
}

/// Diameter of a circle cell: the shorter side of the container shared among
/// as many cells as a square of `unit_count` cells has per row, but never under
/// the minimum.
pub open spec fn circle_cell_size(unit_count: nat, c: Container) -> int {
    let root = ceil_sqrt(unit_count);
    let per_row: int = if root >= 1 {
        root as int
    } else {
        1
    };
    let fit = shorter_side(c) / per_row;
    if fit >= CIRCLE_MIN_SIZE {
        fit
    } else {
        CIRCLE_MIN_SIZE as int
    }
}

pub open spec fn circle_grid(unit_count: nat, c: Container) -> GridModel {
    grid_model(unit_count, c, circle_cell_size(unit_count, c), CIRCLE_PADDING as int)
}

/// Centre of cell `index`, counted row by row from the top-left cell.
pub open spec fn center_of_cell(g: GridModel, index: int) -> (int, int) {
    (
        g.start_x + (index % g.columns) * g.pitch() + g.cell_size / 2,
        g.start_y + (index / g.columns) * g.pitch() + g.cell_size / 2,
    )
}

proof fn lemma_ceil_sqrt_unique(n: nat, r: nat)
    requires
        is_ceil_sqrt(n, r),
    ensures
        ceil_sqrt(n) == r,
{
    let s = ceil_sqrt(n);
    assert(is_ceil_sqrt(n, s));
    if s < r {
        assert(s * s <= (r - 1) * (r - 1)) by (nonlinear_arith)
            requires
                s < r,
        ;
    } else if r < s {
        assert(r * r <= (s - 1) * (s - 1)) by (nonlinear_arith)
            requires
                r < s,
        ;
    }
}

/// The square root of `n`, rounded up.
pub fn ceil_sqrt_of(n: u32) -> (r: u32)
    ensures
        r == ceil_sqrt(n as nat),
{
    let mut r: u64 = 0;
    while r * r < n as u64
        invariant
            r <= 0x1_0000,
            r * r <= 0x1_0000_0000,
            r == 0 || (r - 1) * (r - 1) < n,
        decreases 0x1_0000 - r,
    {
        assert(r < 0x1_0000) by (nonlinear_arith)
            requires
                r * r < n,
                n <= u32::MAX,
                r <= 0x1_0000,
        ;
        r = r + 1;
        assert(r * r <= 0x1_0000_0000) by (nonlinear_arith)
            requires
                r <= 0x1_0000,
        ;
    }
    proof {
        lemma_ceil_sqrt_unique(n as nat, r as nat);
    }
    r as u32
}

pub(crate) fn halve_toward_zero(d: i64) -> (h: i64)
    requires
        d > i64::MIN,
    ensures
        h == half_toward_zero(d as int),
{
    if d >= 0 {
        d / 2
    } else {
        -((-d) / 2)
    }
}

/// Lays out `unit_count` square cells of side `cell_size`, `padding` apart,
/// centred in `container`.
pub fn grid_with_cell_size(unit_count: u32, container: &Container, cell_size: i64, padding: i64) -> (g: GridGeometry)
    requires
        0 <= cell_size <= MAX_CELL_SIDE,
        0 <= padding <= MAX_CELL_SIDE,
        cell_size + padding > 0,
    ensures
        g@ == grid_model(unit_count as nat, *container, cell_size as int, padding as int),
        g.wf(),
{
    let pitch: i64 = cell_size + padding;
    let width: i64 = container.width as i64;
    let height: i64 = container.height as i64;
    let fit: i64 = ((container.width as u64) / (pitch as u64)) as i64;
    let columns: i64 = if fit >= 1 {
        fit
    } else {
        1
    };
    assert(columns <= 0xFFFF) by (nonlinear_arith)
        requires
            fit == width as int / pitch as int,
            0 <= width <= 0xFFFF,
            pitch >= 1,
            columns == if fit >= 1 { fit } else { 1 },
    ;
    let rows: i64 = ((unit_count as u64 + columns as u64 - 1) / (columns as u64)) as i64;
    assert(rows <= 0x2_0000_0000) by (nonlinear_arith)
        requires
            rows == (unit_count + columns - 1) as int / columns as int,
            0 <= unit_count <= u32::MAX,
            1 <= columns <= 0xFFFF,
    ;
    assert(columns * pitch <= 0x2_0000_0000) by (nonlinear_arith)
        requires
            1 <= columns <= 0xFFFF,
            1 <= pitch <= 0x2_0000,
    ;
    assert(rows * pitch <= 0x4_0000_0000_0000) by (nonlinear_arith)
        requires
            0 <= rows <= 0x2_0000_0000,
            1 <= pitch <= 0x2_0000,
    ;
    let total_width: i64 = columns * pitch;
    let total_height: i64 = rows * pitch;
    let offset_x = halve_toward_zero(width - total_width);
    let offset_y = halve_toward_zero(height - total_height);
    GridGeometry {
        cell_size,
        padding,
        columns,
        rows,
        offset_x,
        offset_y,
        start_x: container.point.x as i64 + offset_x,
        start_y: container.point.y as i64 + offset_y,
    }
}

fn shorter_side_of(container: &Container) -> (side: u64)
    ensures
        side == shorter_side(*container),
{
    if container.width <= container.height {
        container.width as u64
    } else {
        container.height as u64
    }
}

/// Lays out `unit_count` diamond cells in `container`.
pub fn diamond_layout(unit_count: u32, container: &Container) -> (g: GridGeometry)
    ensures
        g@ == diamond_grid(unit_count as nat, *container),
        g.wf(),
{
    let side = shorter_side_of(container);
    let half: u64 = unit_count as u64 / 2;
    let per_row: u64 = if half >= 1 {
        half
    } else {
        1
    };
    let fit: u64 = side / per_row;
    assert(fit <= side) by (nonlinear_arith)
        requires
            fit == side as int / per_row as int,
            per_row >= 1,
    ;
    let cell_size: i64 = if fit >= DIAMOND_MIN_SIZE as u64 {
        fit as i64
    } else {
        DIAMOND_MIN_SIZE
    };
    grid_with_cell_size(unit_count, container, cell_size, DIAMOND_PADDING)
}

/// Lays out `unit_count` circle cells in `container`.
pub fn circle_layout(unit_count: u32, container: &Container) -> (g: GridGeometry)
    ensures
        g@ == circle_grid(unit_count as nat, *container),
        g.wf(),
{
    let side = shorter_side_of(container);
    let root = ceil_sqrt_of(unit_count);
    let per_row: u64 = if root >= 1 {
        root as u64
    } else {
        1
    };
    let fit: u64 = side / per_row;
    assert(fit <= side) by (nonlinear_arith)
        requires
            fit == side as int / per_row as int,
            per_row >= 1,
    ;
    let cell_size: i64 = if fit >= CIRCLE_MIN_SIZE as u64 {
        fit as i64
    } else {
        CIRCLE_MIN_SIZE
    };
    grid_with_cell_size(unit_count, container, cell_size, CIRCLE_PADDING)
}

/// Centre of cell `index` of the grid `g`.
pub fn cell_center(g: &GridGeometry, index: u32) -> (p: Coord)
    requires
        g.wf(),
    ensures
        (p.x as int, p.y as int) == center_of_cell(g@, index as int),
        -0x20_0000_0000_0000 <= p.x <= 0x20_0000_0000_0000,
        -0x20_0000_0000_0000 <= p.y <= 0x20_0000_0000_0000,
{
    let pitch: i64 = g.cell_size + g.padding;
    let col: u64 = (index as u64) % (g.columns as u64);
    let row: u64 = (index as u64) / (g.columns as u64);
    assert(col <= index && row <= index) by (nonlinear_arith)
        requires
            col == index as int % g.columns as int,
            row == index as int / g.columns as int,
            g.columns >= 1,
    ;
    assert(col * pitch <= 0x2_0000_0000_0000 && row * pitch <= 0x2_0000_0000_0000)
        by (nonlinear_arith)
        requires
            0 <= col <= u32::MAX,
            0 <= row <= u32::MAX,
            0 <= pitch <= 0x2_0000,
    ;
    Coord {
        x: g.start_x + (col as i64) * pitch + g.cell_size / 2,
        y: g.start_y + (row as i64) * pitch + g.cell_size / 2,
    }
}

/// Laying out the same number of cells in the same container twice gives the
/// same grid, for either kind of cell.
pub proof fn lemma_layout_deterministic(n1: nat, c1: Container, n2: nat, c2: Container)
    requires
        n1 == n2,
        c1 == c2,
    ensures
        diamond_grid(n1, c1) == diamond_grid(n2, c2),
        circle_grid(n1, c1) == circle_grid(n2, c2),
{
}

/// A grid of at least one cell has at least one column and one row, and holds
/// every cell with no row left empty.
pub proof fn lemma_grid_holds_all_cells(unit_count: nat, c: Container, cell_size: int, padding: int)
    requires
        unit_count >= 1,
        cell_size + padding > 0,
    ensures
        grid_model(unit_count, c, cell_size, padding).columns >= 1,
        grid_model(unit_count, c, cell_size, padding).rows >= 1,
        grid_model(unit_count, c, cell_size, padding).columns * grid_model(
            unit_count,
            c,
            cell_size,
            padding,
        ).rows >= unit_count,
        (grid_model(unit_count, c, cell_size, padding).rows - 1) * grid_model(
            unit_count,
            c,
            cell_size,
            padding,
        ).columns < unit_count,
{
    let g = grid_model(unit_count, c, cell_size, padding);
    let cols = g.columns;
    let rows = g.rows;
    assert(rows >= 1 && cols * rows >= unit_count && (rows - 1) * cols < unit_count)
        by (nonlinear_arith)
        requires
            cols >= 1,
            unit_count >= 1,
            rows == (unit_count + cols - 1) / cols,
    ;
}

/// For any cell count of at least one and a container of positive size, both
/// layouts have at least one column and one row, and room for every cell.
pub proof fn lemma_layouts_are_nonempty(unit_count: nat, c: Container)
    requires
        unit_count >= 1,
        c.width > 0,
        c.height > 0,
    ensures
        diamond_grid(unit_count, c).columns >= 1,
        diamond_grid(unit_count, c).rows >= 1,
        diamond_grid(unit_count, c).columns * diamond_grid(unit_count, c).rows >= unit_count,
        circle_grid(unit_count, c).columns >= 1,
        circle_grid(unit_count, c).rows >= 1,
        circle_grid(unit_count, c).columns * circle_grid(unit_count, c).rows >= unit_count,
{
    lemma_grid_holds_all_cells(unit_count, c, diamond_cell_size(unit_count, c), DIAMOND_PADDING as int);
    lemma_grid_holds_all_cells(unit_count, c, circle_cell_size(unit_count, c), CIRCLE_PADDING as int);
}

/// A grid is centred: the margins left and right (top and bottom) differ by at
/// most one pixel, and a grid exactly as wide (tall) as its container has no
/// offset on that axis.
pub proof fn lemma_grid_centred(unit_count: nat, c: Container, cell_size: int, padding: int)
    ensures
        ({
            let g = grid_model(unit_count, c, cell_size, padding);
            &&& -1 <= (c.width - g.total_width() - g.offset_x) - g.offset_x <= 1
            &&& -1 <= (c.height - g.total_height() - g.offset_y) - g.offset_y <= 1
            &&& g.total_width() == c.width ==> g.offset_x == 0
            &&& g.total_height() == c.height ==> g.offset_y == 0
        }),
{
}

/// With no cells, either layout has no rows; in a container no wider than it is
/// tall it also has a single column.
pub proof fn lemma_empty_layouts(c: Container)
    ensures
        diamond_grid(0, c).rows == 0,
        circle_grid(0, c).rows == 0,
        c.width <= c.height ==> diamond_grid(0, c).columns == 1,
        c.width <= c.height ==> circle_grid(0, c).columns == 1,
{
    lemma_ceil_sqrt_unique(0, 0);
    let d = diamond_grid(0, c).columns;
    let k = circle_grid(0, c).columns;
    assert((d - 1) / d == 0 && (k - 1) / k == 0) by (nonlinear_arith)
        requires
            d >= 1,
            k >= 1,
    ;
    if c.width <= c.height {
        let dp = diamond_cell_size(0, c) + DIAMOND_PADDING;
        let kp = circle_cell_size(0, c) + CIRCLE_PADDING;
        assert(shorter_side(c) / 1 == c.width);
        assert(c.width as int / dp == 0 && c.width as int / kp == 0) by (nonlinear_arith)
            requires
                0 <= c.width < dp,
                0 <= c.width < kp,
        ;
    }
}

} // verus!
