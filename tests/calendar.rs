use your_life_in_x::{
    cell_center, cell_is_elapsed, ceil_sqrt_of, circle_layout, diamond_layout, diamond_parts,
    elapsed_months, elapsed_years, fixed_grid_cells, grid_with_cell_size, month_cell_fill,
    month_cells, year_cell_color, year_cells, Color, Container, Coord, DateTime, Point, Shape,
};

fn date(year: u16, month: u8, day: u8) -> DateTime {
    DateTime { year, month, day, hour: 0, minute: 0, second: 0, ms: 0 }
}

fn birthday() -> DateTime {
    DateTime { year: 1998, month: 9, day: 10, hour: 11, minute: 30, second: 0, ms: 0 }
}

fn portrait() -> Container {
    Container { point: Point { x: 0, y: 0 }, width: 128, height: 296 }
}

#[test]
fn elapsed_units_of_the_reference_dates() {
    let now = date(2025, 6, 15);
    assert_eq!(elapsed_years(&birthday(), &now), 26);
    assert_eq!(elapsed_months(&birthday(), &now), 321);
}

#[test]
fn no_year_on_the_day_of_birth_one_on_the_first_birthday() {
    let b = birthday();
    assert_eq!(elapsed_years(&b, &b), 0);
    let next = DateTime { year: b.year + 1, ..b };
    assert_eq!(elapsed_years(&b, &next), 1);
    let eve = DateTime { year: b.year + 1, day: b.day - 1, ..b };
    assert_eq!(elapsed_years(&b, &eve), 0);
}

#[test]
fn elapsed_years_never_exceed_year_difference() {
    let b = birthday();
    for (y, m, d) in [(1998u16, 9u8, 10u8), (1999, 1, 1), (2010, 9, 9), (2010, 9, 10), (2030, 12, 31)] {
        let now = date(y, m, d);
        assert!(u32::from(elapsed_years(&b, &now)) <= u32::from(now.year - b.year));
    }
}

#[test]
fn elapsed_units_clamp_to_zero_before_birth() {
    let b = birthday();
    assert_eq!(elapsed_years(&b, &date(1990, 1, 1)), 0);
    assert_eq!(elapsed_years(&b, &date(1998, 3, 1)), 0);
    assert_eq!(elapsed_months(&b, &date(1990, 1, 1)), 0);
    assert_eq!(elapsed_months(&b, &date(1998, 9, 9)), 0);
}

#[test]
fn elapsed_months_wait_for_the_day_of_the_month() {
    let b = date(2000, 1, 20);
    assert_eq!(elapsed_months(&b, &date(2000, 3, 19)), 1);
    assert_eq!(elapsed_months(&b, &date(2000, 3, 20)), 2);
    assert_eq!(elapsed_months(&b, &date(2001, 1, 20)), 12);
    assert_eq!(elapsed_months(&b, &date(2000, 1, 25)), 0);
}

#[test]
fn ceil_sqrt_rounds_up() {
    assert_eq!(ceil_sqrt_of(0), 0);
    assert_eq!(ceil_sqrt_of(1), 1);
    assert_eq!(ceil_sqrt_of(2), 2);
    assert_eq!(ceil_sqrt_of(4), 2);
    assert_eq!(ceil_sqrt_of(5), 3);
    assert_eq!(ceil_sqrt_of(960), 31);
    assert_eq!(ceil_sqrt_of(961), 31);
    assert_eq!(ceil_sqrt_of(u32::MAX), 65536);
}

#[test]
fn layout_twice_gives_the_same_grid() {
    let c = portrait();
    assert_eq!(diamond_layout(90, &c), diamond_layout(90, &c));
    assert_eq!(circle_layout(960, &c), circle_layout(960, &c));
}

#[test]
fn one_cell_needs_a_column_and_a_row() {
    let c = Container { point: Point { x: 0, y: 0 }, width: 1, height: 1 };
    for g in [diamond_layout(1, &c), circle_layout(1, &c)] {
        assert!(g.columns >= 1);
        assert!(g.rows >= 1);
    }
}

#[test]
fn grid_filling_the_width_has_no_horizontal_offset() {
    let c = Container { point: Point { x: 3, y: 4 }, width: 100, height: 50 };
    let g = grid_with_cell_size(10, &c, 15, 5);
    assert_eq!(g.columns, 5);
    assert_eq!(g.rows, 2);
    assert_eq!(g.offset_x, 0);
    assert_eq!(g.offset_y, 5);
    assert_eq!(g.start_x, 3);
    assert_eq!(g.start_y, 9);
}

#[test]
fn overflowing_grid_offset_rounds_toward_zero() {
    let c = Container { point: Point { x: 0, y: 0 }, width: 128, height: 100 };
    let g = diamond_layout(90, &c);
    assert_eq!(g.rows, 15);
    assert_eq!(g.offset_y, -92);
}

#[test]
fn colour_changes_once_along_the_cells() {
    let elapsed = 4;
    let mut changes = 0;
    for i in 0..10u32 {
        if cell_is_elapsed(i, elapsed) != cell_is_elapsed(i + 1, elapsed) {
            changes += 1;
            assert_eq!(i + 1, elapsed);
            assert!(cell_is_elapsed(i, elapsed));
        }
    }
    assert_eq!(changes, 1);
    assert_eq!(year_cell_color(3, 4), Color::Red);
    assert_eq!(year_cell_color(4, 4), Color::Black);
    assert_eq!(month_cell_fill(3, 4), Some(Color::Red));
    assert_eq!(month_cell_fill(4, 4), None);
    assert!(!cell_is_elapsed(0, 0));
}

#[test]
fn ninety_years_on_a_portrait_panel() {
    let g = diamond_layout(90, &portrait());
    assert_eq!(g.cell_size, 14);
    assert_eq!(g.padding, 5);
    assert_eq!(g.columns, 6);
    assert_eq!(g.rows, 15);
    assert!(g.columns * g.rows >= 90);
    assert_eq!(g.offset_x, 7);
    assert_eq!(g.offset_y, 5);
}

#[test]
fn months_of_eighty_years_on_a_portrait_panel() {
    let g = circle_layout(960, &portrait());
    assert_eq!(g.cell_size, 4);
    assert_eq!(g.padding, 2);
    assert_eq!(g.columns, 21);
    assert_eq!(g.rows, 46);
    assert_eq!(g.offset_x, 1);
    assert_eq!(g.offset_y, 10);
}

#[test]
fn no_units_gives_one_column_and_no_rows() {
    let c = portrait();
    for g in [diamond_layout(0, &c), circle_layout(0, &c)] {
        assert_eq!(g.columns, 1);
        assert_eq!(g.rows, 0);
    }
    let now = date(2025, 6, 15);
    assert!(year_cells(&birthday(), &now, 0, &c).is_empty());
    assert!(month_cells(&birthday(), &now, 0, &c).is_empty());
}

#[test]
fn narrow_container_still_has_one_column() {
    let c = Container { point: Point { x: 0, y: 0 }, width: 10, height: 296 };
    let g = diamond_layout(90, &c);
    assert_eq!(g.columns, 1);
    assert_eq!(g.rows, 90);
}

#[test]
fn cell_centres_run_row_by_row() {
    let g = diamond_layout(90, &portrait());
    assert_eq!(cell_center(&g, 0), Coord { x: 14, y: 12 });
    assert_eq!(cell_center(&g, 5), Coord { x: 109, y: 12 });
    assert_eq!(cell_center(&g, 7), Coord { x: 33, y: 31 });
    let moved = Container { point: Point { x: -10, y: 100 }, ..portrait() };
    let h = diamond_layout(90, &moved);
    assert_eq!(cell_center(&h, 7), Coord { x: 23, y: 131 });
}

#[test]
fn diamond_is_two_triangles_and_four_edges() {
    let parts = diamond_parts(Coord { x: 10, y: 20 }, 14, Color::Red);
    let top = Coord { x: 10, y: 13 };
    let right = Coord { x: 17, y: 20 };
    let bottom = Coord { x: 10, y: 27 };
    let left = Coord { x: 3, y: 20 };
    assert_eq!(
        parts,
        vec![
            Shape::Triangle { a: top, b: right, c: bottom, color: Color::Red },
            Shape::Triangle { a: bottom, b: left, c: top, color: Color::Red },
            Shape::Line { from: top, to: right, stroke: Color::Black },
            Shape::Line { from: right, to: bottom, stroke: Color::Black },
            Shape::Line { from: bottom, to: left, stroke: Color::Black },
            Shape::Line { from: left, to: top, stroke: Color::Black },
        ]
    );
}

#[test]
fn odd_diamond_size_halves_toward_zero() {
    let parts = diamond_parts(Coord { x: 0, y: 0 }, 15, Color::Black);
    assert_eq!(parts[0], Shape::Triangle {
        a: Coord { x: 0, y: -7 },
        b: Coord { x: 7, y: 0 },
        c: Coord { x: 0, y: 7 },
        color: Color::Black,
    });
    let flipped = diamond_parts(Coord { x: 0, y: 0 }, -15, Color::Black);
    assert_eq!(flipped[2], Shape::Line {
        from: Coord { x: 0, y: 7 },
        to: Coord { x: -7, y: 0 },
        stroke: Color::Black,
    });
}

#[test]
fn years_calendar_of_the_reference_dates() {
    let cells = year_cells(&birthday(), &date(2025, 6, 15), 90, &portrait());
    assert_eq!(cells.len(), 90);
    assert!(cells[..26].iter().all(|c| c.fill == Color::Red));
    assert!(cells[26..].iter().all(|c| c.fill == Color::Black));
    assert!(cells.iter().all(|c| c.size == 14));
    assert_eq!(cells[0].center, Coord { x: 14, y: 12 });
    assert_eq!(cells[89].center, Coord { x: 109, y: 278 });
}

#[test]
fn months_calendar_of_the_reference_dates() {
    let cells = month_cells(&birthday(), &date(2025, 6, 15), 80, &portrait());
    assert_eq!(cells.len(), 960);
    let filled = cells
        .iter()
        .filter(|s| matches!(s, Shape::Circle { fill: Some(Color::Red), .. }))
        .count();
    assert_eq!(filled, 321);
    assert_eq!(
        cells[0],
        Shape::Circle { center: Coord { x: 3, y: 12 }, diameter: 4, fill: Some(Color::Red), stroke: Color::Black }
    );
    assert_eq!(
        cells[321],
        Shape::Circle { center: Coord { x: 3 + 6 * 6, y: 12 + 15 * 6 }, diameter: 4, fill: None, stroke: Color::Black }
    );
}

#[test]
fn fixed_grid_fills_the_rows_of_past_years() {
    let cells = fixed_grid_cells(&birthday(), 90, 2025, 52, 90, 2);
    assert_eq!(cells.len(), 52 * 90);
    let past = cells
        .iter()
        .filter(|s| matches!(s, Shape::Square { fill: Some(Color::Black), .. }))
        .count();
    assert_eq!(past, 52 * 27);
    assert_eq!(
        cells[52 * 27 + 3],
        Shape::Square { top_left: Coord { x: 6, y: 54 }, side: 2, fill: None, stroke: Color::Black }
    );
    assert_eq!(fixed_grid_cells(&birthday(), 10, 2025, 52, 90, 2).len(), 520);
}

#[test]
fn out_of_range_month_before_the_birth_year_counts_nothing() {
    let b = date(2000, 1, 1);
    let now = date(1999, 200, 1);
    assert_eq!(elapsed_months(&b, &now), 0);
    assert_eq!(elapsed_years(&b, &now), 0);
    let cells = month_cells(&b, &now, 1, &portrait());
    assert!(cells.iter().all(|s| matches!(s, Shape::Circle { fill: None, .. })));
}

#[test]
fn months_grid_exactly_as_wide_as_its_container() {
    let c = Container { point: Point { x: 0, y: 0 }, width: 126, height: 296 };
    let g = circle_layout(960, &c);
    assert_eq!(g.cell_size, 4);
    assert_eq!(g.columns, 21);
    assert_eq!(g.offset_x, 0);
    let cells = month_cells(&birthday(), &date(2025, 6, 15), 80, &c);
    assert!(matches!(cells[0], Shape::Circle { center: Coord { x: 2, .. }, .. }));
}

#[test]
fn fixed_grid_bounds_only_the_rows_it_draws() {
    let cells = fixed_grid_cells(&birthday(), 2, 2025, 3, u32::MAX / 4, 1_000_000);
    assert_eq!(cells.len(), 6);
    assert_eq!(
        cells[5],
        Shape::Square { top_left: Coord { x: 2_000_000, y: 1_000_000 }, side: 1_000_000, fill: Some(Color::Black), stroke: Color::Black }
    );
}
