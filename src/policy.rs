//! Which colour a cell takes, from its index and the number of elapsed units.

use vstd::prelude::*;

verus! {

/// The colours of a three-colour panel.
#[derive(Clone, Copy, Debug, PartialEq, Eq, Structural)]
pub enum Color {
    White,
    Black,
    Red,
}

/// Cell `index` stands for a unit that has already gone by.
pub open spec fn is_elapsed(index: int, elapsed: int) -> bool {
    index < elapsed
}

/// Fill of a cell of the years grid: red for years gone by, black for those to come.
pub open spec fn year_color(index: int, elapsed: int) -> Color {
    if is_elapsed(index, elapsed) {
        Color::Red
    } else {
        Color::Black
    }
}

/// Fill of a cell of the months grid: red for months gone by, none (outline
/// only) for those to come.
pub open spec fn month_fill(index: int, elapsed: int) -> Option<Color> {
    if is_elapsed(index, elapsed) {
        Some(Color::Red)
    } else {
        None
    }
}

/// Whether cell `index` stands for an elapsed unit.
pub fn cell_is_elapsed(index: u32, elapsed: u32) -> (r: bool)
    ensures
        r == is_elapsed(index as int, elapsed as int),
{
    index < elapsed
}

/// Fill colour of cell `index` of the years grid.
pub fn year_cell_color(index: u32, elapsed: u32) -> (color: Color)
    ensures
        color == year_color(index as int, elapsed as int),
{
    if cell_is_elapsed(index, elapsed) {
        Color::Red
    } else {
        Color::Black
    }
}

/// Fill of cell `index` of the months grid.
pub fn month_cell_fill(index: u32, elapsed: u32) -> (fill: Option<Color>)
    ensures
        fill == month_fill(index as int, elapsed as int),
{
    if cell_is_elapsed(index, elapsed) {
        Some(Color::Red)
    } else {
        None
    }
}

/// Walking the cells in order, the rule changes exactly once, from elapsed to
/// remaining, at the elapsed count, and never changes back.
pub proof fn lemma_policy_changes_once(elapsed: int, i: int, j: int)
    requires
        0 <= i <= j,
    ensures
        is_elapsed(j, elapsed) ==> is_elapsed(i, elapsed),
        (is_elapsed(i, elapsed) != is_elapsed(i + 1, elapsed)) <==> i + 1 == elapsed,
        (year_color(i, elapsed) != year_color(i + 1, elapsed)) <==> i + 1 == elapsed,
        (month_fill(i, elapsed) != month_fill(i + 1, elapsed)) <==> i + 1 == elapsed,
{
}

} // verus!
