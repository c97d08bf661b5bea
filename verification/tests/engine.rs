use game_of_life::board_init;
use game_of_life::count_neighbours;
use game_of_life::fill_glider;
use game_of_life::next;
use game_of_life::Board;
use game_of_life::Cell;
use game_of_life::BOARD_HEIGHT;
use game_of_life::BOARD_WIDTH;

fn cells_of(board: &Board) -> Vec<Vec<Cell>> {
    let mut rows: Vec<Vec<Cell>> = Vec::new();
    for row in 0..BOARD_HEIGHT {
        let mut cols: Vec<Cell> = Vec::new();
        for coll in 0..BOARD_WIDTH {
            cols.push(board.get(row, coll));
        }
        rows.push(cols);
    }
    rows
}

fn boards_equal(a: &Board, b: &Board) -> bool {
    for row in 0..BOARD_HEIGHT {
        for coll in 0..BOARD_WIDTH {
            if a.get(row, coll) != b.get(row, coll) {
                return false;
            }
        }
    }
    true
}

fn alive_cells(board: &Board) -> Vec<(usize, usize)> {
    let mut alive: Vec<(usize, usize)> = Vec::new();
    for row in 0..BOARD_HEIGHT {
        for coll in 0..BOARD_WIDTH {
            if board.get(row, coll) == Cell::Alive {
                alive.push((row, coll));
            }
        }
    }
    alive
}

#[test]
fn blank_board_is_all_dead() {
    let board = board_init();
    for row in 0..BOARD_HEIGHT {
        for coll in 0..BOARD_WIDTH {
            assert_eq!(board.get(row, coll), Cell::Dead);
        }
    }
}

#[test]
fn set_then_get_roundtrip() {
    let mut board = board_init();
    board.set(5, 7, Cell::Alive);
    assert_eq!(board.get(5, 7), Cell::Alive);
    for row in 0..BOARD_HEIGHT {
        for coll in 0..BOARD_WIDTH {
            if (row, coll) != (5, 7) {
                assert_eq!(board.get(row, coll), Cell::Dead);
            }
        }
    }
    board.set(5, 7, Cell::Dead);
    assert_eq!(board.get(5, 7), Cell::Dead);
}

#[test]
fn fill_glider_sets_exactly_five_cells() {
    let mut board = board_init();
    fill_glider(&mut board);
    assert_eq!(alive_cells(&board), vec![(0, 1), (1, 2), (2, 0), (2, 1), (2, 2)]);
}

#[test]
fn next_is_deterministic() {
    let mut board = board_init();
    fill_glider(&mut board);
    let first = next(&board);
    let second = next(&board);
    assert!(boards_equal(&first, &second));
}

#[test]
fn neighbour_count_is_eight_on_a_full_board() {
    let mut board = board_init();
    for row in 0..BOARD_HEIGHT {
        for coll in 0..BOARD_WIDTH {
            board.set(row, coll, Cell::Alive);
        }
    }
    for row in 0..BOARD_HEIGHT {
        for coll in 0..BOARD_WIDTH {
            assert_eq!(count_neighbours(&board, row, coll), 8);
        }
    }
}

#[test]
fn neighbour_count_is_zero_on_a_blank_board() {
    let board = board_init();
    for row in 0..BOARD_HEIGHT {
        for coll in 0..BOARD_WIDTH {
            assert_eq!(count_neighbours(&board, row, coll), 0);
        }
    }
}

#[test]
fn toroidal_wrap_counts_across_all_four_edges() {
    let mut board = board_init();
    board.set(0, 0, Cell::Alive);
    // The single live cell at the origin is a neighbour of all eight cells
    // that touch it through the wrapped edges and corners.
    let neighbours = [
        (BOARD_HEIGHT - 1, BOARD_WIDTH - 1),
        (BOARD_HEIGHT - 1, 0),
        (BOARD_HEIGHT - 1, 1),
        (0, BOARD_WIDTH - 1),
        (0, 1),
        (1, BOARD_WIDTH - 1),
        (1, 0),
        (1, 1),
    ];
    for &(row, coll) in neighbours.iter() {
        assert_eq!(count_neighbours(&board, row, coll), 1);
    }
    // The live cell is not its own neighbour, and cells farther away see nothing.
    assert_eq!(count_neighbours(&board, 0, 0), 0);
    assert_eq!(count_neighbours(&board, 2, 2), 0);
    assert_eq!(count_neighbours(&board, 20, 20), 0);
}

#[test]
fn block_is_a_still_life() {
    let mut board = board_init();
    board.set(5, 5, Cell::Alive);
    board.set(5, 6, Cell::Alive);
    board.set(6, 5, Cell::Alive);
    board.set(6, 6, Cell::Alive);
    let stepped = next(&board);
    assert!(boards_equal(&board, &stepped));
}

#[test]
fn block_wrapped_around_the_corner_is_a_still_life() {
    let mut board = board_init();
    board.set(BOARD_HEIGHT - 1, BOARD_WIDTH - 1, Cell::Alive);
    board.set(BOARD_HEIGHT - 1, 0, Cell::Alive);
    board.set(0, BOARD_WIDTH - 1, Cell::Alive);
    board.set(0, 0, Cell::Alive);
    let stepped = next(&board);
    assert!(boards_equal(&board, &stepped));
}

#[test]
fn set_and_get_at_the_largest_coordinates() {
    let mut board = board_init();
    board.set(BOARD_HEIGHT - 1, BOARD_WIDTH - 1, Cell::Alive);
    assert_eq!(board.get(BOARD_HEIGHT - 1, BOARD_WIDTH - 1), Cell::Alive);
    assert_eq!(count_neighbours(&board, 0, 0), 1);
}

#[test]
fn glider_translates_diagonally_every_four_generations() {
    let mut board = board_init();
    fill_glider(&mut board);
    for _ in 0..4 {
        board = next(&board);
    }
    // The glider shape again, shifted by exactly (1, 1).
    assert_eq!(alive_cells(&board), vec![(1, 2), (2, 3), (3, 1), (3, 2), (3, 3)]);
}

#[test]
fn lone_cell_dies_of_underpopulation() {
    let mut board = board_init();
    board.set(3, 3, Cell::Alive);
    let stepped = next(&board);
    assert!(alive_cells(&stepped).is_empty());
}

#[test]
fn crowded_cell_dies_of_overpopulation() {
    let mut board = board_init();
    for row in 9..=11 {
        for coll in 9..=11 {
            board.set(row, coll, Cell::Alive);
        }
    }
    assert_eq!(count_neighbours(&board, 10, 10), 8);
    let stepped = next(&board);
    assert_eq!(stepped.get(10, 10), Cell::Dead);
}

#[test]
fn dead_cell_with_three_neighbours_is_born() {
    let mut board = board_init();
    board.set(4, 4, Cell::Alive);
    board.set(4, 5, Cell::Alive);
    board.set(4, 6, Cell::Alive);
    assert_eq!(count_neighbours(&board, 5, 5), 3);
    assert_eq!(next(&board).get(5, 5), Cell::Alive);
}

#[test]
fn dead_cell_with_two_or_four_neighbours_stays_dead() {
    let mut two = board_init();
    two.set(4, 4, Cell::Alive);
    two.set(4, 5, Cell::Alive);
    assert_eq!(count_neighbours(&two, 5, 5), 2);
    assert_eq!(next(&two).get(5, 5), Cell::Dead);

    let mut four = board_init();
    four.set(4, 4, Cell::Alive);
    four.set(4, 5, Cell::Alive);
    four.set(4, 6, Cell::Alive);
    four.set(5, 4, Cell::Alive);
    assert_eq!(count_neighbours(&four, 5, 5), 4);
    assert_eq!(next(&four).get(5, 5), Cell::Dead);
}

#[test]
fn next_does_not_mutate_its_input() {
    let mut board = board_init();
    fill_glider(&mut board);
    let snapshot = cells_of(&board);
    let _stepped = next(&board);
    assert_eq!(cells_of(&board), snapshot);
}
