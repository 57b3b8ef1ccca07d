use game_of_life::cell::{Cell, CellState};
use game_of_life::error::InvalidConfiguration;
use game_of_life::grid::{Grid, Position};

const A: CellState = CellState::Alive;
const D: CellState = CellState::Dead;

/// A board from a picture: `#` is a live cell, anything else a dead one.
fn board(picture: &[&str]) -> Grid {
    let rows: Vec<Vec<CellState>> = picture
        .iter()
        .map(|line| line.chars().map(|c| if c == '#' { A } else { D }).collect())
        .collect();
    Grid::from_rows(&rows).expect("the picture is a rectangle")
}

#[test]
fn new_board_is_dead_all_over() {
    let grid = Grid::new(4, 3).unwrap();
    assert_eq!(grid.width(), 4);
    assert_eq!(grid.height(), 3);
    assert_eq!(grid.to_rows(), vec![vec![D; 4]; 3]);
}

#[test]
fn board_without_columns_is_refused() {
    assert_eq!(Grid::new(0, 5), Err(InvalidConfiguration));
}

#[test]
fn board_without_rows_is_refused() {
    assert_eq!(Grid::new(5, 0), Err(InvalidConfiguration));
}

#[test]
fn board_without_anything_is_refused() {
    assert_eq!(Grid::new(0, 0), Err(InvalidConfiguration));
}

#[test]
fn one_cell_is_a_board() {
    let grid = Grid::new(1, 1).unwrap();
    assert_eq!(grid.to_rows(), vec![vec![D]]);
    assert_eq!(grid.step().to_rows(), vec![vec![D]]);
}

#[test]
fn from_rows_keeps_every_cell() {
    let rows = vec![vec![A, D, D], vec![D, D, A]];
    let grid = Grid::from_rows(&rows).unwrap();
    assert_eq!(grid.width(), 3);
    assert_eq!(grid.height(), 2);
    assert_eq!(grid.to_rows(), rows);
    assert_eq!(grid.get(0, 0), Some(Cell { cell_state: A }));
    assert_eq!(grid.get(1, 0), Some(Cell { cell_state: D }));
    assert_eq!(grid.get(2, 1), Some(Cell { cell_state: A }));
}

#[test]
fn from_rows_refuses_no_rows() {
    let rows: Vec<Vec<CellState>> = Vec::new();
    assert_eq!(Grid::from_rows(&rows), Err(InvalidConfiguration));
}

#[test]
fn from_rows_refuses_empty_rows() {
    let rows: Vec<Vec<CellState>> = vec![Vec::new(), Vec::new()];
    assert_eq!(Grid::from_rows(&rows), Err(InvalidConfiguration));
}

#[test]
fn from_rows_refuses_ragged_rows() {
    assert_eq!(Grid::from_rows(&vec![vec![A, D], vec![D]]), Err(InvalidConfiguration));
    assert_eq!(Grid::from_rows(&vec![vec![A], vec![D, D]]), Err(InvalidConfiguration));
    assert_eq!(
        Grid::from_rows(&vec![vec![A, D], vec![D, D], vec![D, D, D]]),
        Err(InvalidConfiguration)
    );
}

#[test]
fn get_outside_the_board_finds_nothing() {
    let grid = board(&["#.", ".#"]);
    assert_eq!(grid.get(2, 0), None);
    assert_eq!(grid.get(0, 2), None);
    assert_eq!(grid.get(usize::MAX, usize::MAX), None);
}

#[test]
fn cells_are_listed_row_after_row() {
    let grid = board(&["#..", ".#."]);
    assert_eq!(
        grid.cells(),
        vec![
            (Position { x: 0, y: 0 }, A),
            (Position { x: 1, y: 0 }, D),
            (Position { x: 2, y: 0 }, D),
            (Position { x: 0, y: 1 }, D),
            (Position { x: 1, y: 1 }, A),
            (Position { x: 2, y: 1 }, D),
        ]
    );
}

#[test]
fn clone_is_the_same_board() {
    let grid = board(&["#.#", ".#.", "..#"]);
    assert_eq!(grid.clone(), grid);
}

#[test]
fn neighbours_are_counted_in_all_eight_directions() {
    let grid = board(&["###", "#.#", "###"]);
    assert_eq!(grid.count_alive_neighbours(1, 1), 8);
}

#[test]
fn a_cell_is_not_its_own_neighbour() {
    let grid = board(&["...", ".#.", "..."]);
    assert_eq!(grid.count_alive_neighbours(1, 1), 0);
    assert_eq!(grid.count_alive_neighbours(0, 0), 1);
    assert_eq!(grid.count_alive_neighbours(2, 2), 1);
    assert_eq!(grid.count_alive_neighbours(1, 0), 1);
}

#[test]
fn the_board_does_not_wrap_around() {
    let grid = board(&["#..#", "....", "....", "#..#"]);
    assert_eq!(grid.count_alive_neighbours(0, 0), 0);
    assert_eq!(grid.count_alive_neighbours(3, 0), 0);
    assert_eq!(grid.count_alive_neighbours(0, 3), 0);
    assert_eq!(grid.count_alive_neighbours(3, 3), 0);
    assert_eq!(grid.count_alive_neighbours(1, 0), 1);
}

#[test]
fn corners_and_edges_have_fewer_neighbours() {
    let grid = board(&["###", "###", "###"]);
    assert_eq!(grid.count_alive_neighbours(0, 0), 3);
    assert_eq!(grid.count_alive_neighbours(2, 0), 3);
    assert_eq!(grid.count_alive_neighbours(0, 2), 3);
    assert_eq!(grid.count_alive_neighbours(2, 2), 3);
    assert_eq!(grid.count_alive_neighbours(1, 0), 5);
    assert_eq!(grid.count_alive_neighbours(0, 1), 5);
    assert_eq!(grid.count_alive_neighbours(1, 1), 8);
}

#[test]
fn positions_off_the_board_may_still_have_neighbours_on_it() {
    let grid = board(&["##", "##"]);
    assert_eq!(grid.count_alive_neighbours(2, 0), 2);
    assert_eq!(grid.count_alive_neighbours(2, 2), 1);
    assert_eq!(grid.count_alive_neighbours(3, 0), 0);
    assert_eq!(grid.count_alive_neighbours(usize::MAX, usize::MAX), 0);
}

#[test]
fn nothing_is_born_on_an_empty_board() {
    for (width, height) in [(1, 1), (1, 7), (7, 1), (3, 3), (16, 9)] {
        let grid = Grid::new(width, height).unwrap();
        let next = grid.step();
        assert_eq!(next, grid);
        assert!(next.cells().iter().all(|(_, state)| *state == D));
    }
}

#[test]
fn a_lonely_cell_dies() {
    let grid = board(&["...", ".#.", "..."]);
    assert_eq!(grid.step(), board(&["...", "...", "..."]));
}

#[test]
fn three_neighbours_give_birth() {
    let grid = board(&["##.", "#..", "..."]);
    assert_eq!(grid.step(), board(&["##.", "##.", "..."]));
}

#[test]
fn a_crowded_cell_dies() {
    let grid = board(&["#.#", ".#.", "#.#"]);
    assert_eq!(grid.step(), board(&[".#.", "#.#", ".#."]));
}

#[test]
fn full_board_keeps_its_corners_only() {
    let grid = board(&["###", "###", "###"]);
    assert_eq!(grid.step(), board(&["#.#", "...", "#.#"]));
}

#[test]
fn block_is_a_still_life() {
    let grid = board(&["....", ".##.", ".##.", "...."]);
    assert_eq!(grid.step(), grid);
    assert_eq!(grid.step().step(), grid);
}

#[test]
fn block_in_a_corner_is_a_still_life() {
    let grid = board(&["##.", "##.", "..."]);
    assert_eq!(grid.step(), grid);
    let whole = board(&["##", "##"]);
    assert_eq!(whole.step(), whole);
}

#[test]
fn blinker_oscillates_with_period_two() {
    let lying = board(&[".....", ".....", ".###.", ".....", "....."]);
    let upright = board(&[".....", "..#..", "..#..", "..#..", "....."]);
    assert_eq!(lying.step(), upright);
    assert_eq!(upright.step(), lying);
    assert_eq!(lying.step().step(), lying);
}

#[test]
fn blinker_oscillates_on_the_smallest_board_that_holds_it() {
    let lying = board(&["...", "###", "..."]);
    let upright = board(&[".#.", ".#.", ".#."]);
    assert_eq!(lying.step(), upright);
    assert_eq!(upright.step(), lying);
}

#[test]
fn blinker_cut_by_the_border_dies_out() {
    let lying = board(&["###"]);
    assert_eq!(lying.step(), board(&[".#."]));
    assert_eq!(lying.step().step(), board(&["..."]));
}

#[test]
fn glider_moves_through_its_generations() {
    let first = board(&[".#...", "..#..", "###..", ".....", "....."]);
    let second = board(&[".....", "#.#..", ".##..", ".#...", "....."]);
    let third = board(&[".....", "..#..", "#.#..", ".##..", "....."]);
    assert_eq!(first.step(), second);
    assert_eq!(second.step(), third);
    assert_ne!(first, second);
    assert_ne!(second, third);
}

#[test]
fn step_gives_the_same_generation_whenever_it_is_asked() {
    let first = board(&[".#...", "..#..", "###..", ".....", "....."]);
    let saved = first.step();
    let kept = saved.clone();
    let once = saved.step();
    let again = kept.step();
    assert_eq!(once, again);
    assert_eq!(saved, kept);
    assert_eq!(first.step(), saved);
}

#[test]
fn step_leaves_the_board_it_reads_alone() {
    let grid = board(&[".....", ".....", ".###.", ".....", "....."]);
    let before = grid.to_rows();
    let _ = grid.step();
    assert_eq!(grid.to_rows(), before);
}

#[test]
fn step_keeps_the_dimensions() {
    let grid = board(&["#..#.##", ".##..#.", "#.#.#.#"]);
    let next = grid.step();
    assert_eq!(next.width(), 7);
    assert_eq!(next.height(), 3);
}

#[test]
fn iterate_board_state_replaces_the_board_by_its_next_generation() {
    let mut grid = board(&[".....", ".....", ".###.", ".....", "....."]);
    let expected = grid.step();
    grid.iterate_board_state();
    assert_eq!(grid, expected);
    assert_eq!(grid, board(&[".....", "..#..", "..#..", "..#..", "....."]));
}

#[test]
fn no_cell_sees_a_neighbour_that_has_already_changed() {
    // Updated in place from the left, the middle cell would see its left
    // neighbour dead and die; computed from the old board it survives.
    let mut grid = board(&["###"]);
    grid.iterate_board_state();
    assert_eq!(grid.get(1, 0), Some(Cell { cell_state: A }));
    assert_eq!(grid.get(0, 0), Some(Cell { cell_state: D }));
    assert_eq!(grid.get(2, 0), Some(Cell { cell_state: D }));
}
