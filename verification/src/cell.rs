//! The state of one cell and the rule that carries it into the next generation.

use vstd::prelude::*;

verus! {

/// One cell of the grid: it is either dead or alive, nothing else.
#[derive(Clone, Copy, Debug, PartialEq, Eq, Structural)]
pub enum Cell {
    Dead,
    Alive,
}

impl Cell {
    /// The other state: dead for alive, alive for dead.
    pub open spec fn toggled(self) -> Cell {
        match self {
            Cell::Dead => Cell::Alive,
            Cell::Alive => Cell::Dead,
        }
    }

    /// What the cell adds to a count of live cells: 1 if alive, 0 if dead.
    pub open spec fn population(self) -> int {
        match self {
            Cell::Dead => 0,
            Cell::Alive => 1,
        }
    }

    /// Flips the cell in place.
    pub fn toggle(&mut self)
        ensures
            *final(self) == old(self).toggled(),
    {
        *self = match *self {
            Cell::Dead => Cell::Alive,
            Cell::Alive => Cell::Dead,
        }
    }

    /// 1 for a live cell, 0 for a dead one.
    pub fn count(self) -> (n: u8)
        ensures
            n == self.population(),
    {
        match self {
            Cell::Dead => 0,
            Cell::Alive => 1,
        }
    }
}

/// The rule of Life for one cell. `current` is the cell as the present
/// generation has it, `None` where there is no such cell, and
/// `live_neighbors` the number of its neighbours that are alive.
///
/// A live cell stays alive with two or three live neighbours and dies
/// otherwise; a dead cell comes alive with exactly three; a cell that is not
/// there counts as dead and stays so.
pub open spec fn next_state(current: Option<Cell>, live_neighbors: int) -> Cell {
    match current {
        Some(Cell::Alive) => if live_neighbors == 2 || live_neighbors == 3 {
            Cell::Alive
        } else {
            Cell::Dead
        },
        Some(Cell::Dead) => if live_neighbors == 3 {
            Cell::Alive
        } else {
            Cell::Dead
        },
        None => Cell::Dead,
    }
}

/// Applies the rule of Life to one cell.
pub fn transition(current: Option<Cell>, live_neighbors: u8) -> (next: Cell)
    ensures
        next == next_state(current, live_neighbors as int),
        current == Some(Cell::Alive) && live_neighbors < 2 ==> next == Cell::Dead,
        current == Some(Cell::Alive) && (live_neighbors == 2 || live_neighbors == 3) ==> next
            == Cell::Alive,
        current == Some(Cell::Alive) && live_neighbors > 3 ==> next == Cell::Dead,
        current == Some(Cell::Dead) && live_neighbors == 3 ==> next == Cell::Alive,
        current == Some(Cell::Dead) && live_neighbors != 3 ==> next == Cell::Dead,
        current is None ==> next == Cell::Dead,
{
    match (current, live_neighbors) {
        // Underpopulation: fewer than two live neighbours.
        (Some(Cell::Alive), x) if x < 2 => Cell::Dead,
        // Survival: two or three live neighbours.
        (Some(Cell::Alive), 2) | (Some(Cell::Alive), 3) => Cell::Alive,
        // Overpopulation: more than three live neighbours.
        (Some(Cell::Alive), x) if x > 3 => Cell::Dead,
        // Reproduction: exactly three live neighbours.
        (Some(Cell::Dead), 3) => Cell::Alive,
        // Every other cell is dead in the next generation.
        (_, _) => Cell::Dead,
    }
}

} // verus!
