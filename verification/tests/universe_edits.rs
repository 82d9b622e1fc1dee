use game_of_life::universe::{DEFAULT_HEIGHT, DEFAULT_WIDTH};
use game_of_life::{Cell, Universe};

fn blank(width: u32, height: u32) -> Universe {
    let mut universe = Universe::new(&[]);
    universe.set_height(height);
    universe.set_width(width);
    universe
}

fn alive_indices(universe: &Universe) -> Vec<usize> {
    let mut found = Vec::new();
    for (index, cell) in universe.get_cells().iter().enumerate() {
        if *cell == Cell::Alive {
            found.push(index);
        }
    }
    found
}

#[test]
fn new_universe_has_the_default_size() {
    let universe = Universe::new(&[]);
    assert_eq!(DEFAULT_WIDTH, 128);
    assert_eq!(DEFAULT_HEIGHT, 128);
    assert_eq!(universe.width(), 128);
    assert_eq!(universe.height(), 128);
    assert_eq!(universe.get_cells().len(), 128 * 128);
}

#[test]
fn new_universe_without_flips_is_dead() {
    let universe = Universe::new(&[]);
    assert!(universe.get_cells().iter().all(|cell| *cell == Cell::Dead));
}

#[test]
fn new_universe_takes_each_cell_from_its_flip() {
    let mut flips = vec![false; 128 * 128];
    flips[0] = true;
    flips[129] = true;
    flips[128 * 128 - 1] = true;
    let universe = Universe::new(&flips);
    assert_eq!(alive_indices(&universe), vec![0, 129, 128 * 128 - 1]);
}

#[test]
fn new_universe_with_all_flips_true_is_all_alive() {
    let flips = vec![true; 128 * 128];
    let universe = Universe::new(&flips);
    assert!(universe.get_cells().iter().all(|cell| *cell == Cell::Alive));
}

#[test]
fn new_universe_with_too_few_flips_leaves_the_rest_dead() {
    let universe = Universe::new(&[true, false, true]);
    assert_eq!(universe.get_cells().len(), 128 * 128);
    assert_eq!(alive_indices(&universe), vec![0, 2]);
}

#[test]
fn new_universe_ignores_flips_beyond_the_last_cell() {
    let flips = vec![true; 128 * 128 + 50];
    let universe = Universe::new(&flips);
    assert_eq!(universe.get_cells().len(), 128 * 128);
    assert_eq!(alive_indices(&universe).len(), 128 * 128);
}

#[test]
fn get_index_counts_rows_of_the_width() {
    let universe = Universe::new(&[]);
    assert_eq!(universe.get_index(0, 0), 0);
    assert_eq!(universe.get_index(0, 5), 5);
    assert_eq!(universe.get_index(3, 4), 3 * 128 + 4);
    assert_eq!(universe.get_index(127, 127), 128 * 128 - 1);
    let small = blank(5, 7);
    assert_eq!(small.get_index(2, 3), 13);
    assert_eq!(small.get_index(6, 4), 34);
}

#[test]
fn get_index_does_not_overflow() {
    let universe = Universe::new(&[]);
    assert_eq!(universe.get_index(u32::MAX, u32::MAX), 4294967295u64 * 128 + 4294967295u64);
    let narrow = blank(0, 3);
    assert_eq!(narrow.get_index(u32::MAX, 9), 9);
}

#[test]
fn set_width_resets_to_dead_cells_of_the_new_size() {
    let mut universe = Universe::new(&vec![true; 128 * 128]);
    universe.set_width(10);
    assert_eq!(universe.width(), 10);
    assert_eq!(universe.height(), 128);
    assert_eq!(universe.get_cells().len(), 10 * 128);
    assert!(universe.get_cells().iter().all(|cell| *cell == Cell::Dead));
}

#[test]
fn set_height_resets_to_dead_cells_of_the_new_size() {
    let mut universe = Universe::new(&vec![true; 128 * 128]);
    universe.set_height(3);
    assert_eq!(universe.width(), 128);
    assert_eq!(universe.height(), 3);
    assert_eq!(universe.get_cells().len(), 128 * 3);
    assert!(universe.get_cells().iter().all(|cell| *cell == Cell::Dead));
}

#[test]
fn set_width_shows_at_once_in_the_cells() {
    let mut universe = blank(4, 4);
    universe.set_cells(&[(1, 1)]);
    universe.set_width(6);
    assert_eq!(universe.get_cells().len(), 24);
    assert!(alive_indices(&universe).is_empty());
    universe.set_cells(&[(3, 5)]);
    assert_eq!(alive_indices(&universe), vec![23]);
}

#[test]
fn set_width_to_zero_empties_the_grid() {
    let mut universe = Universe::new(&[true]);
    universe.set_width(0);
    assert_eq!(universe.width(), 0);
    assert_eq!(universe.height(), 128);
    assert!(universe.get_cells().is_empty());
}

#[test]
fn set_height_to_zero_empties_the_grid() {
    let mut universe = Universe::new(&[true]);
    universe.set_height(0);
    assert_eq!(universe.height(), 0);
    assert_eq!(universe.width(), 128);
    assert!(universe.get_cells().is_empty());
}

#[test]
fn grid_can_grow_again_after_being_empty() {
    let mut universe = blank(0, 0);
    assert!(universe.get_cells().is_empty());
    universe.set_height(2);
    assert!(universe.get_cells().is_empty());
    universe.set_width(3);
    assert_eq!(universe.get_cells().len(), 6);
    assert!(universe.get_cells().iter().all(|cell| *cell == Cell::Dead));
}

#[test]
fn cell_count_is_width_times_height_after_every_operation() {
    let mut universe = Universe::new(&[true, true, false, true]);
    assert_eq!(universe.get_cells().len(), 128 * 128);
    universe.tick();
    assert_eq!(universe.get_cells().len(), 128 * 128);
    universe.set_height(9);
    assert_eq!(universe.get_cells().len(), 128 * 9);
    universe.set_width(7);
    assert_eq!(universe.get_cells().len(), 63);
    universe.toggle_cell(8, 6);
    assert_eq!(universe.get_cells().len(), 63);
    universe.toggle_cell(9, 0);
    assert_eq!(universe.get_cells().len(), 63);
    universe.set_cells(&[(0, 0), (100, 100), (8, 6)]);
    assert_eq!(universe.get_cells().len(), 63);
    universe.tick();
    assert_eq!(universe.get_cells().len(), 63);
    universe.reset_cells();
    assert_eq!(universe.get_cells().len(), 63);
    assert_eq!(universe.width(), 7);
    assert_eq!(universe.height(), 9);
}

#[test]
fn toggle_cell_flips_one_cell() {
    let mut universe = blank(5, 5);
    universe.toggle_cell(1, 2);
    assert_eq!(alive_indices(&universe), vec![7]);
    universe.toggle_cell(4, 4);
    assert_eq!(alive_indices(&universe), vec![7, 24]);
    universe.toggle_cell(1, 2);
    assert_eq!(alive_indices(&universe), vec![24]);
}

#[test]
fn toggle_cell_edits_the_generation_that_a_tick_left() {
    let mut universe = blank(5, 5);
    universe.set_cells(&[(2, 1), (2, 2), (2, 3)]);
    universe.tick();
    assert_eq!(alive_indices(&universe), vec![7, 12, 17]);
    universe.toggle_cell(0, 0);
    assert_eq!(alive_indices(&universe), vec![0, 7, 12, 17]);
    universe.toggle_cell(2, 2);
    assert_eq!(alive_indices(&universe), vec![0, 7, 17]);
}

#[test]
fn toggle_cell_past_the_last_row_changes_nothing() {
    let mut universe = blank(5, 4);
    universe.set_cells(&[(0, 0), (3, 4), (2, 2)]);
    let before = universe.get_cells().to_vec();
    let height = universe.height();
    universe.toggle_cell(height, 0);
    assert_eq!(universe.get_cells(), &before[..]);
    assert_eq!(universe.width(), 5);
    assert_eq!(universe.height(), 4);
}

#[test]
fn toggle_cell_far_outside_changes_nothing() {
    let mut universe = blank(5, 4);
    universe.set_cells(&[(1, 1)]);
    let before = universe.get_cells().to_vec();
    universe.toggle_cell(u32::MAX, u32::MAX);
    assert_eq!(universe.get_cells(), &before[..]);
    universe.toggle_cell(1000, 3);
    assert_eq!(universe.get_cells(), &before[..]);
    universe.toggle_cell(3, 5);
    assert_eq!(universe.get_cells(), &before[..]);
}

#[test]
fn toggle_cell_goes_by_the_index_of_the_pair() {
    let mut universe = blank(5, 4);
    universe.toggle_cell(0, 7);
    assert_eq!(alive_indices(&universe), vec![7]);
    universe.toggle_cell(1, 2);
    assert!(alive_indices(&universe).is_empty());
}

#[test]
fn toggle_cell_on_an_empty_grid_changes_nothing() {
    let mut universe = blank(0, 0);
    universe.toggle_cell(0, 0);
    assert!(universe.get_cells().is_empty());
}

#[test]
fn reset_cells_kills_every_cell_and_keeps_the_size() {
    let mut universe = Universe::new(&vec![true; 128 * 128]);
    universe.reset_cells();
    assert_eq!(universe.width(), 128);
    assert_eq!(universe.height(), 128);
    assert_eq!(universe.get_cells().len(), 128 * 128);
    assert!(universe.get_cells().iter().all(|cell| *cell == Cell::Dead));
}

#[test]
fn reset_cells_twice_gives_the_same_dead_grid() {
    let mut universe = blank(6, 3);
    universe.set_cells(&[(0, 0), (1, 1), (2, 5)]);
    universe.reset_cells();
    let first = universe.get_cells().to_vec();
    universe.reset_cells();
    let second = universe.get_cells().to_vec();
    assert_eq!(first, vec![Cell::Dead; 18]);
    assert_eq!(second, first);
}

#[test]
fn reset_cells_on_an_empty_grid_leaves_it_empty() {
    let mut universe = blank(0, 5);
    universe.reset_cells();
    assert!(universe.get_cells().is_empty());
    assert_eq!(universe.height(), 5);
}

#[test]
fn set_cells_makes_the_named_cells_alive() {
    let mut universe = blank(5, 5);
    universe.set_cells(&[(2, 1), (2, 2), (2, 3)]);
    assert_eq!(alive_indices(&universe), vec![11, 12, 13]);
}

#[test]
fn set_cells_keeps_live_cells_alive() {
    let mut universe = blank(5, 5);
    universe.set_cells(&[(0, 0), (4, 4)]);
    universe.set_cells(&[(0, 0), (1, 0)]);
    assert_eq!(alive_indices(&universe), vec![0, 5, 24]);
}

#[test]
fn set_cells_passes_over_pairs_outside_the_grid() {
    let mut universe = blank(5, 5);
    universe.set_cells(&[(5, 0), (1, 1), (u32::MAX, u32::MAX), (4, 5), (7, 7)]);
    assert_eq!(alive_indices(&universe), vec![6]);
}

#[test]
fn set_cells_takes_repeated_pairs() {
    let mut universe = blank(3, 3);
    universe.set_cells(&[(1, 1), (1, 1), (1, 1)]);
    assert_eq!(alive_indices(&universe), vec![4]);
}

#[test]
fn set_cells_with_no_pairs_changes_nothing() {
    let mut universe = blank(3, 3);
    universe.set_cells(&[(0, 2)]);
    universe.set_cells(&[]);
    assert_eq!(alive_indices(&universe), vec![2]);
}

#[test]
fn set_cells_goes_by_the_index_of_each_pair() {
    let mut universe = blank(5, 5);
    universe.set_cells(&[(0, 7)]);
    assert_eq!(alive_indices(&universe), vec![7]);
}

#[test]
fn get_cells_lists_the_rows_one_after_the_other() {
    let mut universe = blank(3, 2);
    universe.set_cells(&[(0, 1), (1, 0)]);
    assert_eq!(
        universe.get_cells(),
        &[Cell::Dead, Cell::Alive, Cell::Dead, Cell::Alive, Cell::Dead, Cell::Dead][..]
    );
}
