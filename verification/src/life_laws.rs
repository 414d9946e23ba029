//! What the cells of a universe are and how they evolve, said without the functions
//! that compute it.

use crate::cell::UniverseCell;
use crate::universe::{lemma_index_of_place, lemma_place_of_index, UniverseView};
use vstd::prelude::*;

verus! {

/// The places other than `row`, `column` that are at most one row and one column away
/// from it, are in the universe and hold a live cell.
pub open spec fn live_places_around(universe: UniverseView, row: int, column: int) -> Set<
    (int, int),
> {
    Set::new(
        |place: (int, int)|
            {
                &&& row - 1 <= place.0 <= row + 1
                &&& column - 1 <= place.1 <= column + 1
                &&& place != (row, column)
                &&& 0 <= place.0 < universe.rows
                &&& 0 <= place.1 < universe.columns
                &&& universe.cells[place.0 * universe.columns + place.1] is Alive
            },
    )
}

/// A universe is well formed if there is one cell for each place. The places are the
/// pairs of a row and a column below the dimensions, and the cells of a row stand next
/// to each other.
pub proof fn law_cells_stand_row_after_row(universe: UniverseView, row: int, column: int)
    ensures
        universe.wf() <==> universe.cells.len() == universe.rows * universe.columns,
        universe.holds(row, column) <==> (0 <= row && row < universe.rows && 0 <= column && column
            < universe.columns),
        universe.at(row, column) == universe.cells[row * universe.columns + column],
        universe.index(row, column + 1) == universe.index(row, column) + 1,
        universe.index(row + 1, column) == universe.index(row, column) + universe.columns,
        universe.index(0, 0) == 0,
{
    assert((row + 1) * universe.columns == row * universe.columns + universe.columns)
        by (nonlinear_arith);
}

/// Replacing a cell leaves the dimensions and every other cell of the list alone.
pub proof fn law_replaced_cell_is_the_only_change(
    universe: UniverseView,
    row: int,
    column: int,
    value: UniverseCell,
)
    requires
        universe.cells.len() == universe.rows * universe.columns,
        0 <= row < universe.rows,
        0 <= column < universe.columns,
    ensures
        ({
            let after = universe.with_cell(row, column, value);
            &&& after.rows == universe.rows
            &&& after.columns == universe.columns
            &&& after.cells.len() == universe.cells.len()
            &&& after.cells[row * universe.columns + column] == value
            &&& forall|i: int|
                0 <= i < universe.cells.len() && i != row * universe.columns + column
                    ==> after.cells[i] == universe.cells[i]
        }),
{
    lemma_index_of_place(universe, row, column);
}

/// The listed points are all cells in their order, each with the place that it stands
/// at.
pub proof fn law_points_are_the_cells_in_order(universe: UniverseView)
    requires
        universe.cells.len() == universe.rows * universe.columns,
        universe.rows <= usize::MAX,
        universe.columns <= usize::MAX,
    ensures
        universe.points().len() == universe.cells.len(),
        forall|i: int|
            #![trigger universe.points()[i]]
            0 <= i < universe.cells.len() ==> {
                &&& universe.points()[i].row < universe.rows
                &&& universe.points()[i].column < universe.columns
                &&& universe.points()[i].row * universe.columns + universe.points()[i].column == i
                &&& universe.points()[i].cell == universe.cells[i]
            },
{
    assert forall|i: int| #![trigger universe.points()[i]] 0 <= i < universe.cells.len() implies {
        &&& universe.points()[i].row < universe.rows
        &&& universe.points()[i].column < universe.columns
        &&& universe.points()[i].row * universe.columns + universe.points()[i].column == i
        &&& universe.points()[i].cell == universe.cells[i]
    } by {
        lemma_place_of_index(universe, i);
    }
}

/// Inverting a cell never gives the value it had, and inverting again gives it back.
pub proof fn law_opposites_differ(cell: UniverseCell)
    ensures
        cell.opposite() != cell,
        cell.opposite().opposite() == cell,
{
}

/// With two live neighbours a cell stays what it is, with three it lives, and with any
/// other number it is dead.
pub proof fn law_two_keep_three_give_life(cell: UniverseCell, neighbours: int)
    ensures
        neighbours == 2 ==> cell.successor(neighbours) == cell,
        neighbours == 3 ==> cell.successor(neighbours) is Alive,
        neighbours < 2 || 3 < neighbours ==> cell.successor(neighbours) is Dead,
{
}

spec fn add_if_alive(
    places: Set<(int, int)>,
    universe: UniverseView,
    row: int,
    column: int,
) -> Set<(int, int)> {
    if universe.lives(row, column) {
        places.insert((row, column))
    } else {
        places
    }
}

proof fn lemma_add_if_alive(
    places: Set<(int, int)>,
    universe: UniverseView,
    row: int,
    column: int,
)
    requires
        places.finite(),
        !places.contains((row, column)),
    ensures
        add_if_alive(places, universe, row, column).finite(),
        add_if_alive(places, universe, row, column).len() == places.len() + universe.tally(
            row,
            column,
        ),
{
}

/// The number that the rule goes by is the number of live places around a place.
pub proof fn law_neighbours_are_the_live_places_around(
    universe: UniverseView,
    row: int,
    column: int,
)
    ensures
        live_places_around(universe, row, column).finite(),
        universe.live_neighbours(row, column) == live_places_around(universe, row, column).len(),
{
    let s0 = Set::<(int, int)>::empty();
    let s1 = add_if_alive(s0, universe, row - 1, column - 1);
    let s2 = add_if_alive(s1, universe, row - 1, column);
    let s3 = add_if_alive(s2, universe, row - 1, column + 1);
    let s4 = add_if_alive(s3, universe, row, column - 1);
    let s5 = add_if_alive(s4, universe, row, column + 1);
    let s6 = add_if_alive(s5, universe, row + 1, column - 1);
    let s7 = add_if_alive(s6, universe, row + 1, column);
    let s8 = add_if_alive(s7, universe, row + 1, column + 1);
    lemma_add_if_alive(s0, universe, row - 1, column - 1);
    lemma_add_if_alive(s1, universe, row - 1, column);
    lemma_add_if_alive(s2, universe, row - 1, column + 1);
    lemma_add_if_alive(s3, universe, row, column - 1);
    lemma_add_if_alive(s4, universe, row, column + 1);
    lemma_add_if_alive(s5, universe, row + 1, column - 1);
    lemma_add_if_alive(s6, universe, row + 1, column);
    lemma_add_if_alive(s7, universe, row + 1, column + 1);
    assert forall|place: (int, int)|
        live_places_around(universe, row, column).contains(place) == s8.contains(place) by {
        assert(universe.lives(place.0, place.1) ==> universe.at(place.0, place.1) is Alive);
    }
    assert(live_places_around(universe, row, column) =~= s8);
}

/// One generation later the universe has the same size, and a cell is alive exactly if
/// three live places are around it, or two are and it was alive. So a cell with four or
/// more live places around it is dead.
pub proof fn law_life_and_death(universe: UniverseView, row: int, column: int)
    requires
        universe.cells.len() == universe.rows * universe.columns,
        0 <= row < universe.rows,
        0 <= column < universe.columns,
    ensures
        ({
            let next = universe.next_generation();
            let place = row * universe.columns + column;
            let around = live_places_around(universe, row, column).len();
            &&& next.rows == universe.rows
            &&& next.columns == universe.columns
            &&& next.cells.len() == universe.cells.len()
            &&& next.cells[place] is Alive <==> (around == 3 || (around == 2
                && universe.cells[place] is Alive))
            &&& around >= 4 ==> next.cells[place] is Dead
            &&& around <= 1 ==> next.cells[place] is Dead
        }),
{
    lemma_index_of_place(universe, row, column);
    law_neighbours_are_the_live_places_around(universe, row, column);
}

} // verus!
