//! Arithmetic of the torus: where wrapped coordinates land, and how a cell's
//! index goes back and forth with its row and column.

use crate::grid::{wrap, Grid};
use vstd::arithmetic::div_mod::{
    lemma_div_pos_is_pos, lemma_fundamental_div_mod, lemma_fundamental_div_mod_converse,
    lemma_mod_bound, lemma_multiply_divide_lt,
};
use vstd::prelude::*;

verus! {

/// One step off either end of `0, .., n - 1` lands on the other end, and a
/// position inside stays where it is.
pub proof fn lemma_wrap_step(i: int, n: nat)
    requires
        0 < n,
        -1 <= i <= n,
    ensures
        wrap(i, n) == if i == -1 {
            n - 1
        } else if i == n {
            0
        } else {
            i
        },
{
    let d: int = n as int;
    if i == -1 {
        lemma_fundamental_div_mod_converse(i, d, -1, d - 1);
    } else if i == n {
        lemma_fundamental_div_mod_converse(i, d, 1, 0);
    } else {
        lemma_fundamental_div_mod_converse(i, d, 0, i);
    }
}

/// The index of a cell inside a grid falls inside the grid's cells.
pub proof fn lemma_index_in_range(row: int, column: int, width: nat, height: nat)
    requires
        0 <= row < height,
        0 <= column < width,
    ensures
        0 <= row * width + column < width * height,
{
    assert(0 <= row * width && (row + 1) * width <= height * width) by (nonlinear_arith)
        requires
            0 <= row < height,
            0 <= width,
    ;
    assert((row + 1) * width == row * width + width) by (nonlinear_arith);
    assert(height * width == width * height) by (nonlinear_arith);
}

/// A cell's row and column are the quotient and the remainder of its index
/// by the width.
pub proof fn lemma_index_splits(row: int, column: int, width: nat)
    requires
        0 <= column < width,
    ensures
        (row * width + column) / (width as int) == row,
        (row * width + column) % (width as int) == column,
{
    lemma_fundamental_div_mod_converse(row * width + column, width as int, row, column);
}

/// An index inside a grid splits into a row and a column of the grid, which
/// give the index back.
pub proof fn lemma_index_joins(i: int, width: nat, height: nat)
    requires
        0 <= i < width * height,
    ensures
        0 < width,
        0 <= i / (width as int) < height,
        0 <= i % (width as int) < width,
        (i / (width as int)) * width + i % (width as int) == i,
{
    let w: int = width as int;
    assert(w != 0) by (nonlinear_arith)
        requires
            0 <= i < w * height,
    ;
    lemma_fundamental_div_mod(i, w);
    lemma_mod_bound(i, w);
    lemma_div_pos_is_pos(i, w);
    lemma_multiply_divide_lt(i, w, height as int);
    assert((i / w) * w == w * (i / w)) by (nonlinear_arith);
}

/// On a well-formed grid the neighbours of a cell are found by stepping off
/// its row and column, around the edges where the cell lies on one, and each
/// of the eight is a cell of the grid.
pub proof fn lemma_neighbors_on_grid(grid: Grid, row: int, column: int)
    requires
        grid.well_formed(),
        0 <= row < grid.height,
        0 <= column < grid.width,
    ensures
        grid.north(row) == if row == 0 {
            grid.height - 1
        } else {
            row - 1
        },
        grid.south(row) == if row == grid.height - 1 {
            0
        } else {
            row + 1
        },
        grid.west(column) == if column == 0 {
            grid.width - 1
        } else {
            column - 1
        },
        grid.east(column) == if column == grid.width - 1 {
            0
        } else {
            column + 1
        },
        grid.neighbors(row, column).len() == 8,
        forall|k: int|
            0 <= k < 8 ==> {
                let at = #[trigger] grid.neighbors(row, column)[k];
                &&& 0 <= at.0 < grid.height
                &&& 0 <= at.1 < grid.width
                &&& grid.holds(at.0, at.1)
            },
{
    lemma_wrap_step(row - 1, grid.height);
    lemma_wrap_step(row + 1, grid.height);
    lemma_wrap_step(column - 1, grid.width);
    lemma_wrap_step(column + 1, grid.width);
    let around = grid.neighbors(row, column);
    assert forall|k: int| 0 <= k < 8 implies {
        let at = #[trigger] around[k];
        &&& 0 <= at.0 < grid.height
        &&& 0 <= at.1 < grid.width
        &&& grid.holds(at.0, at.1)
    } by {
        let at = around[k];
        lemma_index_in_range(at.0, at.1, grid.width, grid.height);
    }
}

} // verus!
