//! What holds of the simulation whatever the grid: the laws that the
//! operations of a universe obey, stated over the model and proved.

use crate::cell::{next_state, Cell};
use crate::grid::Grid;
use crate::torus::{
    lemma_index_joins, lemma_index_splits, lemma_neighbors_on_grid, lemma_wrap_step,
};
use vstd::prelude::*;

verus! {

/// Every operation leaves a grid with one cell for each pair of a row and a
/// column: a new grid has that shape, whether blank or seeded, and a step, a
/// reset and the edits keep it.
pub proof fn lemma_shape_is_kept(
    grid: Grid,
    width: nat,
    height: nat,
    flips: Seq<bool>,
    row: int,
    column: int,
    coords: Seq<(u32, u32)>,
)
    requires
        grid.well_formed(),
    ensures
        Grid::blank(width, height).well_formed(),
        Grid::seeded(width, height, flips).well_formed(),
        grid.next_generation().well_formed(),
        grid.cleared().well_formed(),
        grid.toggled_at(row, column).well_formed(),
        grid.with_alive(coords).well_formed(),
{
}

/// The rule of Life, row by row of its table. A live cell dies of
/// loneliness with fewer than two live neighbours, lives on with two or
/// three, and dies of crowding with more; a dead cell comes alive with
/// exactly three live neighbours and stays dead with any other number.
pub proof fn lemma_rule_table(live_neighbors: int)
    ensures
        live_neighbors < 2 ==> next_state(Some(Cell::Alive), live_neighbors) == Cell::Dead,
        live_neighbors == 2 || live_neighbors == 3 ==> next_state(
            Some(Cell::Alive),
            live_neighbors,
        ) == Cell::Alive,
        live_neighbors > 3 ==> next_state(Some(Cell::Alive), live_neighbors) == Cell::Dead,
        live_neighbors == 3 ==> next_state(Some(Cell::Dead), live_neighbors) == Cell::Alive,
        live_neighbors != 3 ==> next_state(Some(Cell::Dead), live_neighbors) == Cell::Dead,
{
}

/// Two pairs of a row and a column of the grid that have the same index are
/// the same pair: no cell lies in the place of another, at the edges or
/// elsewhere.
pub proof fn lemma_index_is_injective(
    grid: Grid,
    row: int,
    column: int,
    other_row: int,
    other_column: int,
)
    requires
        0 <= column < grid.width,
        0 <= other_column < grid.width,
        grid.index(row, column) == grid.index(other_row, other_column),
    ensures
        row == other_row,
        column == other_column,
{
    lemma_index_splits(row, column, grid.width);
    lemma_index_splits(other_row, other_column, grid.width);
}

/// On a square grid the corner cell `(0, 0)` has the opposite corner among
/// its neighbours, and the last cell of its own column and of its own row:
/// the grid wraps around both edges.
pub proof fn lemma_corner_wraps(grid: Grid)
    requires
        grid.well_formed(),
        grid.width == grid.height,
        grid.height > 0,
    ensures
        grid.neighbors(0, 0).contains((grid.height - 1, grid.width - 1)),
        grid.neighbors(0, 0).contains((grid.height - 1, 0)),
        grid.neighbors(0, 0).contains((0, grid.width - 1)),
{
    lemma_neighbors_on_grid(grid, 0, 0);
    let around = grid.neighbors(0, 0);
    assert(around[0] == (grid.height - 1, grid.width - 1));
    assert(around[1] == (grid.height - 1, 0int));
    assert(around[3] == (0int, grid.width - 1));
}

/// Stepping off a row or a column and back again, in either order, ends
/// where it began, also across an edge.
pub proof fn lemma_wrap_returns(grid: Grid, row: int, column: int)
    requires
        0 <= row < grid.height,
        0 <= column < grid.width,
    ensures
        grid.south(grid.north(row)) == row,
        grid.north(grid.south(row)) == row,
        grid.east(grid.west(column)) == column,
        grid.west(grid.east(column)) == column,
{
    lemma_wrap_step(row - 1, grid.height);
    lemma_wrap_step(row + 1, grid.height);
    lemma_wrap_step(grid.north(row) + 1, grid.height);
    lemma_wrap_step(grid.south(row) - 1, grid.height);
    lemma_wrap_step(column - 1, grid.width);
    lemma_wrap_step(column + 1, grid.width);
    lemma_wrap_step(grid.west(column) + 1, grid.width);
    lemma_wrap_step(grid.east(column) - 1, grid.width);
}

/// A reset leaves every cell dead, and a second reset changes nothing.
pub proof fn lemma_reset_is_idempotent(grid: Grid)
    ensures
        grid.cleared().all_dead(),
        grid.cleared().cleared() == grid.cleared(),
{
    assert(grid.cleared().cleared().cells =~= grid.cleared().cells);
}

/// Toggling at the row just past the last one, in the first column, names
/// no cell and leaves the grid as it is.
pub proof fn lemma_toggle_past_last_row(grid: Grid)
    requires
        grid.well_formed(),
    ensures
        grid.toggled_at(grid.height as int, 0) == grid,
{
    assert(grid.height * grid.width == grid.width * grid.height) by (nonlinear_arith);
}

/// A grid without a live cell stays as it is from one generation to the
/// next.
pub proof fn lemma_dead_grid_is_fixed(grid: Grid)
    requires
        grid.well_formed(),
        grid.all_dead(),
    ensures
        grid.next_generation() == grid,
{
    assert forall|i: int| 0 <= i < grid.cells.len() implies grid.next_cell(i)
        == grid.cells[i] by {
        lemma_index_joins(i, grid.width, grid.height);
        let row: int = i / (grid.width as int);
        let column: int = i % (grid.width as int);
        lemma_neighbors_on_grid(grid, row, column);
        let around = grid.neighbors(row, column);
        assert forall|k: int| 0 <= k < 8 implies grid.population_at(#[trigger] around[k]) == 0 by {
            assert(grid.holds(around[k].0, around[k].1));
        }
        assert(grid.live_neighbors(row, column) == 0);
    }
    assert(grid.next_generation().cells =~= grid.cells);
}

/// After a resize every cell is dead, and a step leaves it so: a blank grid
/// is its own next generation.
pub proof fn lemma_blank_grid_stays_blank(width: nat, height: nat)
    ensures
        Grid::blank(width, height).all_dead(),
        Grid::blank(width, height).next_generation() == Grid::blank(width, height),
{
    lemma_dead_grid_is_fixed(Grid::blank(width, height));
}

} // verus!
