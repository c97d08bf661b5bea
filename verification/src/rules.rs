//! The simulation rules: toroidal neighbour addressing, the live-neighbour
//! counter and the generation stepper.

use vstd::prelude::*;
use vstd::arithmetic::div_mod::lemma_mod_multiples_vanish;
use vstd::arithmetic::div_mod::lemma_small_mod;
use crate::board::board_from_rows;
use crate::board::Board;
use crate::board::Cell;
use crate::board::BOARD_HEIGHT;
use crate::board::BOARD_WIDTH;

verus! {

/// Toroidal wrap-around of coordinate `i` shifted by `d` on an axis of
/// extent `m`: the bias by `m` keeps the dividend non-negative when `d` is.
pub open spec fn wrap(i: int, d: int, m: int) -> int {
    (i + d + m) % m
}

/// For an in-range coordinate and a unit shift, the toroidal wrap stays in
/// range and moves by one step, jumping to the opposite edge at the border.
pub proof fn lemma_wrap_cases(i: int, d: int, m: int)
    requires
        0 <= i < m,
        -1 <= d <= 1,
    ensures
        wrap(i, d, m) == if i + d < 0 {
            m - 1
        } else if i + d >= m {
            0
        } else {
            i + d
        },
        0 <= wrap(i, d, m) < m,
{
    if i + d < 0 {
        lemma_small_mod((m - 1) as nat, m as nat);
    } else if i + d >= m {
        lemma_mod_multiples_vanish(2, 0, m);
        lemma_small_mod(0, m as nat);
    } else {
        lemma_mod_multiples_vanish(1, i + d, m);
        lemma_small_mod((i + d) as nat, m as nat);
    }
}

/// 1 for a live cell, 0 for a dead one.
pub open spec fn weight(c: Cell) -> int {
    match c {
        Cell::Alive => 1,
        Cell::Dead => 0,
    }
}

/// The contribution of the neighbour at offset `(dr, dc)` from `(row, coll)`,
/// with both coordinates wrapped toroidally.
pub open spec fn neighbor_weight(g: Seq<Seq<Cell>>, row: int, coll: int, dr: int, dc: int) -> int {
    weight(g[wrap(row, dr, BOARD_HEIGHT as int)][wrap(coll, dc, BOARD_WIDTH as int)])
}

/// The number of live cells among the 8 toroidal neighbours of `(row, coll)`.
pub open spec fn neighbor_count(g: Seq<Seq<Cell>>, row: int, coll: int) -> int {
    neighbor_weight(g, row, coll, -1, -1) + neighbor_weight(g, row, coll, -1, 0)
        + neighbor_weight(g, row, coll, -1, 1) + neighbor_weight(g, row, coll, 0, -1)
        + neighbor_weight(g, row, coll, 0, 1) + neighbor_weight(g, row, coll, 1, -1)
        + neighbor_weight(g, row, coll, 1, 0) + neighbor_weight(g, row, coll, 1, 1)
}

/// The Game of Life rule for one cell: a live cell survives with 2 or 3 live
/// neighbours and dies otherwise; a dead cell is born with exactly 3.
pub open spec fn step_cell(c: Cell, neighbours: int) -> Cell {
    match c {
        Cell::Alive => if neighbours < 2 || neighbours > 3 {
            Cell::Dead
        } else {
            Cell::Alive
        },
        Cell::Dead => if neighbours == 3 {
            Cell::Alive
        } else {
            Cell::Dead
        },
    }
}

/// The successor grid: the rule applied to every cell, with all neighbour
/// counts read from the unmodified grid `g`.
pub open spec fn step(g: Seq<Seq<Cell>>) -> Seq<Seq<Cell>> {
    Seq::new(
        g.len(),
        |r: int| Seq::new(g[r].len(), |c: int| step_cell(g[r][c], neighbor_count(g, r, c))),
    )
}

/// Wraps coordinate `i` shifted by `d` onto the axis of extent `m`.
fn wrap_index(i: usize, d: i32, m: usize) -> (r: usize)
    requires
        i < m,
        -1 <= d <= 1,
        m <= 0x8000,
    ensures
        r == wrap(i as int, d as int, m as int),
        r < m,
{
    proof {
        lemma_wrap_cases(i as int, d as int, m as int);
    }
    let shifted: i32 = i as i32 + d + m as i32;
    (shifted as usize) % m
}

/// The contribution of one neighbour of `(row, coll)`: 1 if it is live, 0 if not.
fn offset_weight(board: &Board, row: usize, coll: usize, dr: i32, dc: i32) -> (w: usize)
    requires
        board.wf(),
        row < BOARD_HEIGHT,
        coll < BOARD_WIDTH,
        -1 <= dr <= 1,
        -1 <= dc <= 1,
    ensures
        w == neighbor_weight(board@, row as int, coll as int, dr as int, dc as int),
        w <= 1,
{
    let r = wrap_index(row, dr, BOARD_HEIGHT);
    let c = wrap_index(coll, dc, BOARD_WIDTH);
    match board.get(r, c) {
        Cell::Alive => 1,
        Cell::Dead => 0,
    }
}

/// Counts the live cells among the 8 toroidal neighbours of `(row, coll)`,
/// reading only from the board snapshot passed in.
pub fn count_neighbours(board: &Board, row: usize, coll: usize) -> (result: usize)
    requires
        board.wf(),
        row < BOARD_HEIGHT,
        coll < BOARD_WIDTH,
    ensures
        result == neighbor_count(board@, row as int, coll as int),
        result <= 8,
{
    let mut result: usize = 0;
    result = result + offset_weight(board, row, coll, -1, -1);
    result = result + offset_weight(board, row, coll, -1, 0);
    result = result + offset_weight(board, row, coll, -1, 1);
    result = result + offset_weight(board, row, coll, 0, -1);
    result = result + offset_weight(board, row, coll, 0, 1);
    result = result + offset_weight(board, row, coll, 1, -1);
    result = result + offset_weight(board, row, coll, 1, 0);
    result = result + offset_weight(board, row, coll, 1, 1);
    result
}

/// Computes the next generation: a brand-new board whose every cell is the
/// rule applied to the corresponding cell of `board`, with all neighbour
/// counts read from `board` itself, which is never mutated.
pub fn next(board: &Board) -> (new_board: Board)
    requires
        board.wf(),
    ensures
        new_board.wf(),
        new_board@ == step(board@),
{
    let mut rows: Vec<Vec<Cell>> = Vec::new();
    let mut row: usize = 0;
    while row < BOARD_HEIGHT
        invariant
            board.wf(),
            row <= BOARD_HEIGHT,
            rows@.len() == row,
            forall|r: int| 0 <= r < row ==> #[trigger] rows@[r]@ == step(board@)[r],
        decreases BOARD_HEIGHT - row,
    {
        let mut new_row: Vec<Cell> = Vec::new();
        let mut coll: usize = 0;
        while coll < BOARD_WIDTH
            invariant
                board.wf(),
                row < BOARD_HEIGHT,
                coll <= BOARD_WIDTH,
                new_row@.len() == coll,
                forall|c: int| 0 <= c < coll ==> new_row@[c] == step(board@)[row as int][c],
            decreases BOARD_WIDTH - coll,
        {
            let cell = board.get(row, coll);
            let neighbours = count_neighbours(board, row, coll);
            let new_cell = match cell {
                Cell::Alive => if neighbours < 2 || neighbours > 3 {
                    Cell::Dead
                } else {
                    Cell::Alive
                },
                Cell::Dead => if neighbours == 3 {
                    Cell::Alive
                } else {
                    Cell::Dead
                },
            };
            new_row.push(new_cell);
            coll = coll + 1;
        }
        proof {
            assert(new_row@ =~= step(board@)[row as int]);
        }
        rows.push(new_row);
        row = row + 1;
    }
    let new_board = board_from_rows(rows);
    proof {
        assert(new_board@ =~= step(board@));
    }
    new_board
}

} // verus!
