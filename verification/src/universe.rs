//! The universe: a grid of cells on a torus, held in a double buffer, with
//! the step from one generation to the next and the edits between steps.

use crate::buffer::{construct, read_half, reader, update, write_half, writer};
use crate::cell::{transition, Cell};
use crate::grid::{glyph, Grid};
use crate::torus::{lemma_index_in_range, lemma_index_splits, lemma_neighbors_on_grid};
use dubble::DoubleBuffered;
use vstd::prelude::*;
use vstd::string::StringExecFns;

verus! {

/// The width of a new universe, in cells.
pub const DEFAULT_WIDTH: u32 = 128;

/// The height of a new universe, in cells.
pub const DEFAULT_HEIGHT: u32 = 128;

/// A universe of Life. The half of the double buffer that is read holds the
/// current generation. A step writes the next generation into the other half
/// and then brings it over, so that the rule only ever reads the generation
/// it started from.
pub struct Universe {
    width: u32,
    height: u32,
    cells: DoubleBuffered<Vec<Cell>>,
}

impl View for Universe {
    type V = Grid;

    /// The current generation with its dimensions.
    closed spec fn view(&self) -> Grid {
        Grid {
            width: self.width as nat,
            height: self.height as nat,
            cells: read_half(self.cells),
        }
    }
}

impl Universe {
    /// Between two operations both halves of the buffer hold the current
    /// generation.
    pub closed spec fn settled(&self) -> bool {
        write_half(self.cells) == read_half(self.cells)
    }

    /// The invariant of a universe: it has one cell for each pair of a row
    /// and a column, and its buffer is settled. `new` establishes it and
    /// every operation keeps it.
    pub open spec fn wf(&self) -> bool {
        self@.well_formed() && self.settled()
    }

    /// A universe of `DEFAULT_WIDTH` by `DEFAULT_HEIGHT` cells, seeded from
    /// `flips`, one flip of a coin for each cell in the order of their
    /// indices: the cell is alive where its flip is true. A cell for which
    /// `flips` holds no flip is dead; flips beyond the last cell are ignored.
    pub fn new(flips: &[bool]) -> (universe: Universe)
        ensures
            universe.wf(),
            universe@ == Grid::seeded(DEFAULT_WIDTH as nat, DEFAULT_HEIGHT as nat, flips@),
    {
        let width: u32 = DEFAULT_WIDTH;
        let height: u32 = DEFAULT_HEIGHT;
        assert(width * height == 16384) by (nonlinear_arith)
            requires
                width == 128,
                height == 128,
        ;
        let count: usize = width as usize * height as usize;
        let ghost seed = Grid::seeded(width as nat, height as nat, flips@);
        let mut cells = construct();
        let mut index: usize = 0;
        while index < count
            invariant
                index <= count,
                count == seed.cells.len(),
                seed == Grid::seeded(DEFAULT_WIDTH as nat, DEFAULT_HEIGHT as nat, flips@),
                write_half(cells) == seed.cells.take(index as int),
            decreases count - index,
        {
            let alive: bool = index < flips.len() && flips[index];
            let back = writer(&mut cells);
            if alive {
                back.push(Cell::Alive);
            } else {
                back.push(Cell::Dead);
            }
            index += 1;
            assert(write_half(cells) =~= seed.cells.take(index as int));
        }
        update(&mut cells);
        assert(read_half(cells) =~= seed.cells);
        Universe { width, height, cells }
    }

    /// The number of columns.
    pub fn width(&self) -> (width: u32)
        ensures
            width == self@.width,
    {
        self.width
    }

    /// The number of rows.
    pub fn height(&self) -> (height: u32)
        ensures
            height == self@.height,
    {
        self.height
    }

    /// The index of the cell at `(row, column)`, `row * width + column`: rows
    /// lie one after the other. The index is computed for any pair, also one
    /// that names no cell of the universe.
    pub fn get_index(&self, row: u32, column: u32) -> (index: u64)
        ensures
            index == self@.index(row as int, column as int),
    {
        assert(row * self.width <= 0xffff_ffff * 0xffff_ffff) by (nonlinear_arith)
            requires
                0 <= row <= 0xffff_ffff,
                0 <= self.width <= 0xffff_ffff,
        ;
        row as u64 * self.width as u64 + column as u64
    }

    /// Reads the cell at `(row, column)` of the current generation as a
    /// number: 1 if it is alive, 0 if it is dead.
    fn population(&self, row: u32, column: u32) -> (n: u8)
        requires
            self@.well_formed(),
            row < self@.height,
            column < self@.width,
        ensures
            n == self@.population_at((row as int, column as int)),
            n <= 1,
    {
        proof {
            lemma_index_in_range(row as int, column as int, self@.width, self@.height);
        }
        let front = reader(&self.cells);
        assert(front.len() == self@.cells.len());
        let index: u64 = self.get_index(row, column);
        front[index as usize].count()
    }

    /// Counts the live cells among the eight neighbours of the cell at
    /// `(row, column)`. The grid wraps at its edges: the row above the first
    /// is the last, the column right of the last is the first. The edges are
    /// tested for, so that no division is needed for each cell.
    pub fn live_neighbor_count(&self, row: u32, column: u32) -> (count: u8)
        requires
            self@.well_formed(),
            row < self@.height,
            column < self@.width,
        ensures
            count == self@.live_neighbors(row as int, column as int),
            count <= 8,
    {
        let north: u32 = if row == 0 {
            self.height - 1
        } else {
            row - 1
        };
        let south: u32 = if row == self.height - 1 {
            0
        } else {
            row + 1
        };
        let west: u32 = if column == 0 {
            self.width - 1
        } else {
            column - 1
        };
        let east: u32 = if column == self.width - 1 {
            0
        } else {
            column + 1
        };
        let ghost around = self@.neighbors(row as int, column as int);
        proof {
            lemma_neighbors_on_grid(self@, row as int, column as int);
            assert(around[0] == (north as int, west as int));
            assert(around[1] == (north as int, column as int));
            assert(around[2] == (north as int, east as int));
            assert(around[3] == (row as int, west as int));
            assert(around[4] == (row as int, east as int));
            assert(around[5] == (south as int, west as int));
            assert(around[6] == (south as int, column as int));
            assert(around[7] == (south as int, east as int));
        }
        let mut count: u8 = 0;
        count += self.population(north, west);
        count += self.population(north, column);
        count += self.population(north, east);
        count += self.population(row, west);
        count += self.population(row, east);
        count += self.population(south, west);
        count += self.population(south, column);
        count += self.population(south, east);
        count
    }

    /// Advances the universe by one generation. Every cell of the next
    /// generation is computed from the current one alone: the rule reads the
    /// half of the buffer that holds the current generation while its results
    /// go to the other half, which takes its place once every cell is done.
    pub fn tick(&mut self)
        requires
            old(self).wf(),
        ensures
            final(self).wf(),
            final(self)@ == old(self)@.next_generation(),
    {
        let ghost before = self@;
        let mut row: u32 = 0;
        while row < self.height
            invariant
                row <= self.height,
                self@ == before,
                before.well_formed(),
                write_half(self.cells).len() == before.cells.len(),
                forall|i: int|
                    0 <= i < row * before.width ==> write_half(self.cells)[i] == before.next_cell(
                        i,
                    ),
            decreases self.height - row,
        {
            let mut column: u32 = 0;
            while column < self.width
                invariant
                    row < self.height,
                    column <= self.width,
                    self@ == before,
                    before.well_formed(),
                    write_half(self.cells).len() == before.cells.len(),
                    forall|i: int|
                        0 <= i < row * before.width + column ==> write_half(self.cells)[i]
                            == before.next_cell(i),
                decreases self.width - column,
            {
                proof {
                    lemma_index_in_range(row as int, column as int, before.width, before.height);
                    lemma_index_splits(row as int, column as int, before.width);
                }
                let index: usize = self.get_index(row, column) as usize;
                let current = match reader(&self.cells).get(index) {
                    Some(cell) => Some(*cell),
                    None => None,
                };
                let live_neighbors: u8 = self.live_neighbor_count(row, column);
                let next = transition(current, live_neighbors);
                let back = writer(&mut self.cells);
                back[index] = next;
                column += 1;
            }
            assert((row + 1) * before.width == row * before.width + before.width)
                by (nonlinear_arith);
            row += 1;
        }
        update(&mut self.cells);
        assert(self@.cells =~= before.next_generation().cells);
    }

    /// Fills the half that is written with `count` dead cells and brings it
    /// over, so that the current generation has exactly that many cells, all
    /// dead. The dimensions are left as they are.
    fn refill(&mut self, count: usize)
        ensures
            final(self).width == old(self).width,
            final(self).height == old(self).height,
            final(self).settled(),
            read_half(final(self).cells) == Seq::new(count as nat, |i: int| Cell::Dead),
    {
        writer(&mut self.cells).clear();
        let mut filled: usize = 0;
        while filled < count
            invariant
                filled <= count,
                self.width == old(self).width,
                self.height == old(self).height,
                write_half(self.cells) == Seq::new(filled as nat, |i: int| Cell::Dead),
            decreases count - filled,
        {
            writer(&mut self.cells).push(Cell::Dead);
            filled += 1;
            assert(write_half(self.cells) =~= Seq::new(filled as nat, |i: int| Cell::Dead));
        }
        update(&mut self.cells);
    }

    /// Sets the number of columns and resets every cell: when the call
    /// returns, the current generation is `width` by `height` dead cells.
    /// The number of cells has to fit in a `usize`.
    pub fn set_width(&mut self, width: u32)
        requires
            old(self).wf(),
            width * old(self)@.height <= usize::MAX,
        ensures
            final(self).wf(),
            final(self)@ == Grid::blank(width as nat, old(self)@.height),
            final(self)@.all_dead(),
    {
        self.width = width;
        let count: usize = width as usize * self.height as usize;
        self.refill(count);
    }

    /// Sets the number of rows and resets every cell: when the call returns,
    /// the current generation is `width` by `height` dead cells. The number
    /// of cells has to fit in a `usize`.
    pub fn set_height(&mut self, height: u32)
        requires
            old(self).wf(),
            old(self)@.width * height <= usize::MAX,
        ensures
            final(self).wf(),
            final(self)@ == Grid::blank(old(self)@.width, height as nat),
            final(self)@.all_dead(),
    {
        self.height = height;
        let count: usize = self.width as usize * height as usize;
        self.refill(count);
    }

    /// Kills every cell. The dimensions stay as they are.
    pub fn reset_cells(&mut self)
        requires
            old(self).wf(),
        ensures
            final(self).wf(),
            final(self)@ == old(self)@.cleared(),
            final(self)@.all_dead(),
    {
        let count: usize = reader(&self.cells).len();
        self.refill(count);
    }

    /// Flips the cell at `(row, column)` of the current generation, and no
    /// other. The cell is found by its index, `row * width + column`: where
    /// the universe holds no cell with that index, nothing changes.
    pub fn toggle_cell(&mut self, row: u32, column: u32)
        requires
            old(self).wf(),
        ensures
            final(self).wf(),
            final(self)@ == old(self)@.toggled_at(row as int, column as int),
    {
        let index: u64 = self.get_index(row, column);
        let back = writer(&mut self.cells);
        if index < back.len() as u64 {
            back[index as usize].toggle();
        }
        update(&mut self.cells);
    }

    /// The cells of the current generation, row after row.
    pub fn get_cells(&self) -> (cells: &[Cell])
        ensures
            cells@ == self@.cells,
    {
        reader(&self.cells).as_slice()
    }

    /// Makes alive every cell that one of `cells` names by its row and
    /// column, and leaves the others as they are. Each cell is found by its
    /// index, `row * width + column`; a pair whose index the universe does
    /// not hold is passed over. The edits reach the current generation
    /// together, after the last pair.
    pub fn set_cells(&mut self, cells: &[(u32, u32)])
        requires
            old(self).wf(),
        ensures
            final(self).wf(),
            final(self)@ == old(self)@.with_alive(cells@),
    {
        let ghost before = self@;
        let mut done: usize = 0;
        assert(write_half(self.cells) =~= before.with_alive(cells@.take(0)).cells);
        while done < cells.len()
            invariant
                done <= cells.len(),
                self@ == before,
                write_half(self.cells) == before.with_alive(cells@.take(done as int)).cells,
            decreases cells.len() - done,
        {
            let (row, column): (u32, u32) = cells[done];
            let index: u64 = self.get_index(row, column);
            let back = writer(&mut self.cells);
            if index < back.len() as u64 {
                back[index as usize] = Cell::Alive;
            }
            proof {
                assert forall|i: int| 0 <= i < before.cells.len() implies write_half(self.cells)[i]
                    == before.with_alive(cells@.take(done + 1)).cells[i] by {
                    lemma_names_one_more(before, cells@, done as int, i);
                }
                assert(write_half(self.cells) =~= before.with_alive(
                    cells@.take(done + 1),
                ).cells);
            }
            done += 1;
        }
        update(&mut self.cells);
        assert(cells@.take(cells.len() as int) =~= cells@);
    }

    /// The current generation as text: for each row a line that holds one
    /// glyph for each of its cells and ends in a line feed.
    pub fn render(&self) -> (text: String)
        requires
            self@.well_formed(),
        ensures
            text@ == self@.rendered(),
    {
        let mut text = String::new();
        let mut row: u32 = 0;
        while row < self.height
            invariant
                row <= self.height,
                self@.well_formed(),
                text@ == self@.rendered_rows(row as nat),
            decreases self.height - row,
        {
            let ghost above = text@;
            let mut column: u32 = 0;
            while column < self.width
                invariant
                    row < self.height,
                    column <= self.width,
                    self@.well_formed(),
                    text@ == above + Seq::new(
                        column as nat,
                        |c: int| glyph(self@.cells[self@.index(row as int, c)]),
                    ),
                decreases self.width - column,
            {
                proof {
                    lemma_index_in_range(row as int, column as int, self@.width, self@.height);
                }
                let front = reader(&self.cells);
                assert(front.len() == self@.cells.len());
                let index: u64 = self.get_index(row, column);
                push_glyph(&mut text, front[index as usize]);
                column += 1;
                assert(text@ =~= above + Seq::new(
                    column as nat,
                    |c: int| glyph(self@.cells[self@.index(row as int, c)]),
                ));
            }
            proof {
                reveal_strlit("\n");
            }
            text.append("\n");
            row += 1;
            assert(text@ =~= self@.rendered_rows(row as nat));
        }
        text
    }
}

/// Appends to `text` the glyph that stands for `cell`.
fn push_glyph(text: &mut String, cell: Cell)
    ensures
        final(text)@ == old(text)@.push(glyph(cell)),
{
    match cell {
        Cell::Dead => {
            proof {
                reveal_strlit("\u{25FB}");
            }
            text.append("\u{25FB}");
        },
        Cell::Alive => {
            proof {
                reveal_strlit("\u{25FC}");
            }
            text.append("\u{25FC}");
        },
    }
    assert(text@ =~= old(text)@.push(glyph(cell)));
}

/// A pair among the first `k + 1` of `coords` names the cell with index `i`
/// exactly if one among the first `k` does or the pair at `k` does.
proof fn lemma_names_one_more(grid: Grid, coords: Seq<(u32, u32)>, k: int, i: int)
    requires
        0 <= k < coords.len(),
    ensures
        grid.names(coords.take(k + 1), i) <==> grid.names(coords.take(k), i) || grid.index(
            coords[k].0 as int,
            coords[k].1 as int,
        ) == i,
{
    let shorter = coords.take(k);
    let longer = coords.take(k + 1);
    if grid.names(longer, i) {
        let j: int = choose|j: int|
            #![trigger longer[j]]
            0 <= j < longer.len() && grid.index(longer[j].0 as int, longer[j].1 as int) == i;
        if j < k {
            assert(shorter[j] == longer[j]);
        }
    }
    if grid.names(shorter, i) {
        let j: int = choose|j: int|
            #![trigger shorter[j]]
            0 <= j < shorter.len() && grid.index(shorter[j].0 as int, shorter[j].1 as int) == i;
        assert(longer[j] == shorter[j]);
    }
    if grid.index(coords[k].0 as int, coords[k].1 as int) == i {
        assert(longer[k] == coords[k]);
    }
}

} // verus!
