//! Whole calendars: every cell of a grid, placed, sized and coloured.

use vstd::prelude::*;
use crate::layout::{
    lemma_grid_centred, lemma_grid_holds_all_cells, CIRCLE_PADDING,
    circle_cell_size,
    cell_center, center_of_cell, circle_grid, circle_layout, diamond_grid, diamond_layout,
    Container, Coord, GridModel,
};
use crate::policy::{lemma_policy_changes_once, month_cell_fill, month_fill, year_cell_color, year_color, Color};
use crate::shapes::{diamond_fits, Diamond, Shape};
use crate::temporal::{elapsed_months, elapsed_years, months_between, years_between, DateTime};

verus! {

/// Cell `index` of a years grid laid out as `g`, when `elapsed` years have gone by.
pub open spec fn year_cell(g: GridModel, index: int, elapsed: int) -> Diamond {
    Diamond {
        center: Coord {
            x: center_of_cell(g, index).0 as i64,
            y: center_of_cell(g, index).1 as i64,
        },
        size: g.cell_size as i32,
        fill: year_color(index, elapsed),
    }
}

/// Cell `index` of a months grid laid out as `g`, when `elapsed` months have gone by.
pub open spec fn month_cell(g: GridModel, index: int, elapsed: int) -> Shape {
    Shape::Circle {
        center: Coord {
            x: center_of_cell(g, index).0 as i64,
            y: center_of_cell(g, index).1 as i64,
        },
        diameter: g.cell_size as u32,
        fill: month_fill(index, elapsed),
        stroke: Color::Black,
    }
}

/// The years calendar: one diamond per year of `life_expectancy`, laid out in
/// `container`, red for the years lived from `birth` to `now`.
pub fn year_cells(birth: &DateTime, now: &DateTime, life_expectancy: u32, container: &Container) -> (cells: Vec<Diamond>)
    ensures
        cells@.len() == life_expectancy,
        forall|i: int|
            0 <= i < life_expectancy ==> cells@[i] == year_cell(
                diamond_grid(life_expectancy as nat, *container),
                i,
                years_between(*birth, *now) as int,
            ),
        forall|i: int| 0 <= i < life_expectancy ==> diamond_fits(#[trigger] cells@[i].center, cells@[i].size),
{
    let elapsed = elapsed_years(birth, now);
    let g = diamond_layout(life_expectancy, container);
    let mut cells: Vec<Diamond> = Vec::new();
    let mut i: u32 = 0;
    while i < life_expectancy
        invariant
            i <= life_expectancy,
            g.wf(),
            g@ == diamond_grid(life_expectancy as nat, *container),
            elapsed == years_between(*birth, *now),
            cells@.len() == i,
            forall|k: int| 0 <= k < i ==> cells@[k] == year_cell(g@, k, elapsed as int),
            forall|k: int| 0 <= k < i ==> diamond_fits(#[trigger] cells@[k].center, cells@[k].size),
        decreases life_expectancy - i,
    {
        let center = cell_center(&g, i);
        let fill = year_cell_color(i, elapsed as u32);
        cells.push(Diamond { center, size: g.cell_size as i32, fill });
        i = i + 1;
    }
    cells
}

/// The months calendar: one circle per month of `life_expectancy` years, laid
/// out in `container`, filled for the months lived from `birth` to `now` and
/// outlined for the rest.
pub fn month_cells(birth: &DateTime, now: &DateTime, life_expectancy: u32, container: &Container) -> (cells: Vec<Shape>)
    requires
        life_expectancy * 12 <= u32::MAX,
    ensures
        cells@.len() == life_expectancy * 12,
        forall|i: int|
            0 <= i < life_expectancy * 12 ==> cells@[i] == month_cell(
                circle_grid((life_expectancy * 12) as nat, *container),
                i,
                months_between(*birth, *now) as int,
            ),
{
    let elapsed = elapsed_months(birth, now);
    let total: u32 = life_expectancy * 12;
    let g = circle_layout(total, container);
    let mut cells: Vec<Shape> = Vec::new();
    let mut i: u32 = 0;
    while i < total
        invariant
            i <= total,
            total == life_expectancy * 12,
            g.wf(),
            g@ == circle_grid(total as nat, *container),
            elapsed == months_between(*birth, *now),
            cells@.len() == i,
            forall|k: int| 0 <= k < i ==> cells@[k] == month_cell(g@, k, elapsed as int),
        decreases total - i,
    {
        let center = cell_center(&g, i);
        let fill = month_cell_fill(i, elapsed);
        cells.push(Shape::Circle { center, diameter: g.cell_size as u32, fill, stroke: Color::Black });
        i = i + 1;
    }
    cells
}

/// The months calendar of `unit_count` cells: with at least one cell there is a column and a row and room for every cell;
/// a grid exactly as wide as its container puts the first centre half a cell
/// right of the container's edge, and the margins differ by at most a pixel;
/// along the cells the fill changes once, from filled to outline, at the
/// elapsed count.
pub proof fn lemma_month_calendar(unit_count: nat, c: Container, elapsed: int, i: int)
    requires
        0 <= i,
    ensures
        unit_count >= 1 ==> circle_grid(unit_count, c).columns >= 1 && circle_grid(unit_count, c).rows >= 1
            && circle_grid(unit_count, c).columns * circle_grid(unit_count, c).rows >= unit_count,
        ({
            let g = circle_grid(unit_count, c);
            &&& g.total_width() == c.width ==> center_of_cell(g, 0).0 == c.point.x + g.cell_size / 2
            &&& -1 <= (c.width - g.total_width() - g.offset_x) - g.offset_x <= 1
            &&& -1 <= (c.height - g.total_height() - g.offset_y) - g.offset_y <= 1
        }),
        month_fill(i, elapsed) != month_fill(i + 1, elapsed) <==> i + 1 == elapsed,
        month_fill(i + 1, elapsed) == Some(Color::Red) ==> month_fill(i, elapsed) == Some(Color::Red),
{
    let size = circle_cell_size(unit_count, c);
    let g = circle_grid(unit_count, c);
    lemma_grid_centred(unit_count, c, size, CIRCLE_PADDING as int);
    if unit_count >= 1 {
        lemma_grid_holds_all_cells(unit_count, c, size, CIRCLE_PADDING as int);
    }
    lemma_policy_changes_once(elapsed, i, i + 1);
    assert(0int % g.columns == 0 && 0int / g.columns == 0) by (nonlinear_arith)
        requires
            g.columns >= 1,
    ;
}

/// In the fixed grid, row `row` stands for a year that is over: only the year
/// fields are compared.
pub open spec fn fixed_row_is_past(birth: DateTime, current_year: u16, row: int) -> bool {
    birth.year + row < current_year
}

/// Rows of the fixed grid that are drawn: one per year of life, at most `rows`.
pub open spec fn fixed_rows_shown(life_expectancy: u32, rows: u32) -> int {
    if life_expectancy <= rows {
        life_expectancy as int
    } else {
        rows as int
    }
}

/// Cell `index` of a fixed grid `columns` wide: a square of side `cell_size`
/// at its column and row from the canvas origin, filled black when its row's
/// year is over and outlined otherwise.
pub open spec fn fixed_cell(birth: DateTime, current_year: u16, columns: int, cell_size: int, index: int) -> Shape {
    let row = index / columns;
    let col = index % columns;
    Shape::Square {
        top_left: Coord { x: (col * cell_size) as i64, y: (row * cell_size) as i64 },
        side: cell_size as u32,
        fill: if fixed_row_is_past(birth, current_year, row) {
            Some(Color::Black)
        } else {
            None
        },
        stroke: Color::Black,
    }
}

/// The legacy calendar: a fixed grid of `columns` squares per row, one row per
/// year of `life_expectancy` up to `rows`, rows of past years filled.
pub fn fixed_grid_cells(
    birth: &DateTime,
    life_expectancy: u32,
    current_year: u16,
    columns: u32,
    rows: u32,
    cell_size: u32,
) -> (cells: Vec<Shape>)
    requires
        columns * rows <= u32::MAX,
        columns * cell_size <= i32::MAX,
        fixed_rows_shown(life_expectancy, rows) * cell_size <= i32::MAX,
    ensures
        cells@.len() == columns * fixed_rows_shown(life_expectancy, rows),
        forall|i: int|
            0 <= i < cells@.len() ==> cells@[i] == fixed_cell(
                *birth,
                current_year,
                columns as int,
                cell_size as int,
                i,
            ),
{
    let shown: u32 = if life_expectancy <= rows {
        life_expectancy
    } else {
        rows
    };
    assert(columns * shown <= columns * rows) by (nonlinear_arith)
        requires
            0 <= shown <= rows,
            columns >= 0,
    ;
    let count: u32 = columns * shown;
    let mut cells: Vec<Shape> = Vec::new();
    let mut i: u32 = 0;
    while i < count
        invariant
            i <= count,
            count == columns * shown,
            shown == fixed_rows_shown(life_expectancy, rows),
            columns * cell_size <= i32::MAX,
            shown * cell_size <= i32::MAX,
            cells@.len() == i,
            forall|k: int|
                0 <= k < i ==> cells@[k] == fixed_cell(
                    *birth,
                    current_year,
                    columns as int,
                    cell_size as int,
                    k,
                ),
        decreases count - i,
    {
        assert(columns >= 1) by (nonlinear_arith)
            requires
                i < count,
                count == columns * shown,
        ;
        let row: u32 = i / columns;
        let col: u32 = i % columns;
        assert(col * cell_size <= columns * cell_size && row * cell_size <= shown * cell_size)
            by (nonlinear_arith)
            requires
                col < columns,
                row == i / columns,
                i < columns * shown,
                columns >= 1,
        ;
        let x: u64 = col as u64 * cell_size as u64;
        let y: u64 = row as u64 * cell_size as u64;
        let fill = if (birth.year as u64) + (row as u64) < current_year as u64 {
            Some(Color::Black)
        } else {
            None
        };
        cells.push(
            Shape::Square {
                top_left: Coord { x: x as i64, y: y as i64 },
                side: cell_size,
                fill,
                stroke: Color::Black,
            },
        );
        i = i + 1;
    }
    cells
}

} // verus!
