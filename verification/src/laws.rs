//! The laws of the engine, stated and proved over the specification grid.

use vstd::prelude::*;
use crate::board::grid_wf;
use crate::board::Cell;
use crate::board::BOARD_HEIGHT;
use crate::board::BOARD_WIDTH;
use crate::rules::lemma_wrap_cases;
use crate::rules::neighbor_count;
use crate::rules::step;
use crate::rules::step_cell;
use crate::rules::weight;
use crate::rules::wrap;

verus! {

/// Determinism: stepping is a pure function of the grid, so equal grids have
/// equal successors.
pub proof fn lemma_step_deterministic(g1: Seq<Seq<Cell>>, g2: Seq<Seq<Cell>>)
    requires
        g1 == g2,
    ensures
        step(g1) == step(g2),
{
}

/// Every cell has between 0 and 8 live neighbours.
pub proof fn lemma_neighbor_count_range(g: Seq<Seq<Cell>>, row: int, coll: int)
    requires
        grid_wf(g),
        0 <= row < BOARD_HEIGHT,
        0 <= coll < BOARD_WIDTH,
    ensures
        0 <= neighbor_count(g, row, coll) <= 8,
{
}

/// The successor grid keeps the board dimensions, and each of its cells is
/// the rule applied to the matching input cell and its neighbour count.
pub proof fn lemma_step_at(g: Seq<Seq<Cell>>, row: int, coll: int)
    requires
        grid_wf(g),
        0 <= row < BOARD_HEIGHT,
        0 <= coll < BOARD_WIDTH,
    ensures
        grid_wf(step(g)),
        step(g)[row][coll] == step_cell(g[row][coll], neighbor_count(g, row, coll)),
{
}

/// Toroidal wrap on rows: the neighbour count of a cell in the top row reads
/// three cells of the bottom row (`BOARD_HEIGHT - 1`), besides rows 0 and 1.
pub proof fn lemma_top_row_wraps(g: Seq<Seq<Cell>>, coll: int)
    requires
        grid_wf(g),
        0 <= coll < BOARD_WIDTH,
    ensures
        neighbor_count(g, 0, coll) == weight(
            g[BOARD_HEIGHT - 1][wrap(coll, -1, BOARD_WIDTH as int)],
        ) + weight(g[BOARD_HEIGHT - 1][coll]) + weight(
            g[BOARD_HEIGHT - 1][wrap(coll, 1, BOARD_WIDTH as int)],
        ) + weight(g[0][wrap(coll, -1, BOARD_WIDTH as int)]) + weight(
            g[0][wrap(coll, 1, BOARD_WIDTH as int)],
        ) + weight(g[1][wrap(coll, -1, BOARD_WIDTH as int)]) + weight(g[1][coll]) + weight(
            g[1][wrap(coll, 1, BOARD_WIDTH as int)],
        ),
{
    lemma_wrap_cases(0, -1, BOARD_HEIGHT as int);
    lemma_wrap_cases(0, 0, BOARD_HEIGHT as int);
    lemma_wrap_cases(0, 1, BOARD_HEIGHT as int);
    lemma_wrap_cases(coll, 0, BOARD_WIDTH as int);
}

/// Toroidal wrap on columns: the neighbour count of a cell in the leftmost
/// column reads three cells of the rightmost column (`BOARD_WIDTH - 1`),
/// besides columns 0 and 1.
pub proof fn lemma_left_column_wraps(g: Seq<Seq<Cell>>, row: int)
    requires
        grid_wf(g),
        0 <= row < BOARD_HEIGHT,
    ensures
        neighbor_count(g, row, 0) == weight(
            g[wrap(row, -1, BOARD_HEIGHT as int)][BOARD_WIDTH - 1],
        ) + weight(g[wrap(row, -1, BOARD_HEIGHT as int)][0]) + weight(
            g[wrap(row, -1, BOARD_HEIGHT as int)][1],
        ) + weight(g[row][BOARD_WIDTH - 1]) + weight(g[row][1]) + weight(
            g[wrap(row, 1, BOARD_HEIGHT as int)][BOARD_WIDTH - 1],
        ) + weight(g[wrap(row, 1, BOARD_HEIGHT as int)][0]) + weight(
            g[wrap(row, 1, BOARD_HEIGHT as int)][1],
        ),
{
    lemma_wrap_cases(0, -1, BOARD_WIDTH as int);
    lemma_wrap_cases(0, 0, BOARD_WIDTH as int);
    lemma_wrap_cases(0, 1, BOARD_WIDTH as int);
    lemma_wrap_cases(row, 0, BOARD_HEIGHT as int);
}

/// The grid whose only live cells are the 2-by-2 block anchored at `(r0, c0)`,
/// its far row and column wrapped toroidally.
pub open spec fn block_grid(r0: int, c0: int) -> Seq<Seq<Cell>> {
    Seq::new(
        BOARD_HEIGHT as nat,
        |r: int|
            Seq::new(
                BOARD_WIDTH as nat,
                |c: int| if (r == r0 || r == wrap(r0, 1, BOARD_HEIGHT as int)) && (c == c0 || c
                    == wrap(c0, 1, BOARD_WIDTH as int)) {
                    Cell::Alive
                } else {
                    Cell::Dead
                },
            ),
    )
}

/// Still life: a 2-by-2 block of live cells (each block cell has exactly 3
/// live neighbours, every other cell at most 2) is a fixed point of the step
/// function, wherever the block stands — the board is large enough that the
/// block never disturbs itself through the wrap.
pub proof fn lemma_block_still_life(r0: int, c0: int)
    requires
        0 <= r0 < BOARD_HEIGHT,
        0 <= c0 < BOARD_WIDTH,
    ensures
        step(block_grid(r0, c0)) == block_grid(r0, c0),
{
    let g = block_grid(r0, c0);
    lemma_wrap_cases(r0, 1, BOARD_HEIGHT as int);
    lemma_wrap_cases(c0, 1, BOARD_WIDTH as int);
    assert forall|r: int, c: int|
        0 <= r < BOARD_HEIGHT && 0 <= c < BOARD_WIDTH implies step(g)[r][c] == g[r][c] by {
        lemma_wrap_cases(r, -1, BOARD_HEIGHT as int);
        lemma_wrap_cases(r, 0, BOARD_HEIGHT as int);
        lemma_wrap_cases(r, 1, BOARD_HEIGHT as int);
        lemma_wrap_cases(c, -1, BOARD_WIDTH as int);
        lemma_wrap_cases(c, 0, BOARD_WIDTH as int);
        lemma_wrap_cases(c, 1, BOARD_WIDTH as int);
    };
    assert(step(g) =~~= g);
}

/// Underpopulation and overpopulation: a live cell with fewer than 2 or more
/// than 3 live neighbours is dead in the next generation.
pub proof fn lemma_under_over_population(g: Seq<Seq<Cell>>, row: int, coll: int)
    requires
        grid_wf(g),
        0 <= row < BOARD_HEIGHT,
        0 <= coll < BOARD_WIDTH,
        g[row][coll] == Cell::Alive,
        neighbor_count(g, row, coll) < 2 || neighbor_count(g, row, coll) > 3,
    ensures
        step(g)[row][coll] == Cell::Dead,
{
}

/// Birth: a dead cell with exactly 3 live neighbours is alive in the next
/// generation; with any other count it stays dead.
pub proof fn lemma_birth(g: Seq<Seq<Cell>>, row: int, coll: int)
    requires
        grid_wf(g),
        0 <= row < BOARD_HEIGHT,
        0 <= coll < BOARD_WIDTH,
        g[row][coll] == Cell::Dead,
    ensures
        step(g)[row][coll] == if neighbor_count(g, row, coll) == 3 {
            Cell::Alive
        } else {
            Cell::Dead
        },
{
}

} // verus!
