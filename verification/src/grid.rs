//! The mathematical model of the simulation: a grid of cells on a torus, its
//! neighbourhoods, the step from one generation to the next, and the edits.
//! Everything here is ghost: it is what the contracts of `Universe` speak of.

use crate::cell::{next_state, Cell};
use vstd::prelude::*;

verus! {

/// `i` carried onto the circle of `n` positions `0, 1, .., n - 1`.
pub open spec fn wrap(i: int, n: nat) -> int {
    i % (n as int)
}

/// The glyph that stands for a cell in a rendered grid.
pub open spec fn glyph(cell: Cell) -> char {
    match cell {
        Cell::Dead => '\u{25FB}',
        Cell::Alive => '\u{25FC}',
    }
}

/// A generation: `height` rows of `width` cells each, stored row after row.
pub struct Grid {
    pub width: nat,
    pub height: nat,
    pub cells: Seq<Cell>,
}

impl Grid {
    /// There is exactly one cell for each pair of a row and a column.
    pub open spec fn well_formed(self) -> bool {
        self.cells.len() == self.width * self.height
    }

    /// The place of the cell at `(row, column)` in `cells`.
    pub open spec fn index(self, row: int, column: int) -> int {
        row * self.width + column
    }

    /// Whether `(row, column)` names a cell that is stored: whether its index
    /// falls inside `cells`.
    pub open spec fn holds(self, row: int, column: int) -> bool {
        0 <= self.index(row, column) < self.cells.len()
    }

    /// The row above `row`; above the first row lies the last.
    pub open spec fn north(self, row: int) -> int {
        wrap(row - 1, self.height)
    }

    /// The row below `row`; below the last row lies the first.
    pub open spec fn south(self, row: int) -> int {
        wrap(row + 1, self.height)
    }

    /// The column left of `column`; left of the first column lies the last.
    pub open spec fn west(self, column: int) -> int {
        wrap(column - 1, self.width)
    }

    /// The column right of `column`; right of the last column lies the first.
    pub open spec fn east(self, column: int) -> int {
        wrap(column + 1, self.width)
    }

    /// The eight neighbours of `(row, column)` on the torus, as pairs of a row
    /// and a column: north-west, north, north-east, west, east, south-west,
    /// south, south-east. On a grid with fewer than three rows or columns a
    /// cell occurs more than once among them.
    pub open spec fn neighbors(self, row: int, column: int) -> Seq<(int, int)> {
        seq![
            (self.north(row), self.west(column)),
            (self.north(row), column),
            (self.north(row), self.east(column)),
            (row, self.west(column)),
            (row, self.east(column)),
            (self.south(row), self.west(column)),
            (self.south(row), column),
            (self.south(row), self.east(column)),
        ]
    }

    /// 1 if the cell at `at` is alive, 0 if it is dead.
    pub open spec fn population_at(self, at: (int, int)) -> int {
        self.cells[self.index(at.0, at.1)].population()
    }

    /// How many of the eight neighbours of `(row, column)` are alive, each
    /// counted as often as it occurs among them.
    pub open spec fn live_neighbors(self, row: int, column: int) -> int {
        let around = self.neighbors(row, column);
        self.population_at(around[0]) + self.population_at(around[1]) + self.population_at(
            around[2],
        ) + self.population_at(around[3]) + self.population_at(around[4]) + self.population_at(
            around[5],
        ) + self.population_at(around[6]) + self.population_at(around[7])
    }

    /// The cell with index `i` as the next generation has it.
    pub open spec fn next_cell(self, i: int) -> Cell {
        next_state(
            Some(self.cells[i]),
            self.live_neighbors(i / (self.width as int), i % (self.width as int)),
        )
    }

    /// The next generation: the rule of Life applied to every cell at once.
    pub open spec fn next_generation(self) -> Grid {
        Grid {
            width: self.width,
            height: self.height,
            cells: Seq::new(self.cells.len(), |i: int| self.next_cell(i)),
        }
    }

    /// Every cell is dead.
    pub open spec fn all_dead(self) -> bool {
        forall|i: int| 0 <= i < self.cells.len() ==> self.cells[i] == Cell::Dead
    }

    /// A grid of `width` by `height` dead cells.
    pub open spec fn blank(width: nat, height: nat) -> Grid {
        Grid { width, height, cells: Seq::new(width * height, |i: int| Cell::Dead) }
    }

    /// A grid of `width` by `height` cells drawn from `flips`: the cell with
    /// index `i` is alive where `flips[i]` is true, and dead where it is
    /// false or `flips` is too short to say.
    pub open spec fn seeded(width: nat, height: nat, flips: Seq<bool>) -> Grid {
        Grid {
            width,
            height,
            cells: Seq::new(
                width * height,
                |i: int|
                    if i < flips.len() && flips[i] {
                        Cell::Alive
                    } else {
                        Cell::Dead
                    },
            ),
        }
    }

    /// The same grid with as many cells, all of them dead.
    pub open spec fn cleared(self) -> Grid {
        Grid {
            width: self.width,
            height: self.height,
            cells: Seq::new(self.cells.len(), |i: int| Cell::Dead),
        }
    }

    /// The grid with the cell at `(row, column)` flipped; the grid itself
    /// where it holds no such cell.
    pub open spec fn toggled_at(self, row: int, column: int) -> Grid {
        let i: int = self.index(row, column);
        if self.holds(row, column) {
            Grid {
                width: self.width,
                height: self.height,
                cells: self.cells.update(i, self.cells[i].toggled()),
            }
        } else {
            self
        }
    }

    /// Whether one of `coords` names the cell with index `i`.
    pub open spec fn names(self, coords: Seq<(u32, u32)>, i: int) -> bool {
        exists|k: int|
            #![trigger coords[k]]
            0 <= k < coords.len() && self.index(coords[k].0 as int, coords[k].1 as int) == i
    }

    /// The grid with every cell alive that one of `coords` names, and every
    /// other cell as it was. Pairs that name no cell of the grid change
    /// nothing.
    pub open spec fn with_alive(self, coords: Seq<(u32, u32)>) -> Grid {
        Grid {
            width: self.width,
            height: self.height,
            cells: Seq::new(
                self.cells.len(),
                |i: int|
                    if self.names(coords, i) {
                        Cell::Alive
                    } else {
                        self.cells[i]
                    },
            ),
        }
    }

    /// One row as text: a glyph for each of its cells, then a line feed.
    pub open spec fn rendered_row(self, row: int) -> Seq<char> {
        Seq::new(self.width, |column: int| glyph(self.cells[self.index(row, column)])).push('\n')
    }

    /// The first `rows` rows as text, one after the other.
    pub open spec fn rendered_rows(self, rows: nat) -> Seq<char>
        decreases rows,
    {
        if rows == 0 {
            Seq::empty()
        } else {
            self.rendered_rows((rows - 1) as nat) + self.rendered_row(rows - 1)
        }
    }

    /// The whole grid as text: each row on a line of its own.
    pub open spec fn rendered(self) -> Seq<char> {
        self.rendered_rows(self.height)
    }
}

} // verus!
