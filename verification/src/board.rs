//! The board: a fixed-size grid of cells with per-cell read and write,
//! blank-board construction and the glider seed.

use vstd::prelude::*;

verus! {

/// The state of one grid cell: every cell is always exactly one of these.
#[derive(Clone, Copy, Debug, PartialEq, Eq, Structural)]
pub enum Cell {
    Alive,
    Dead,
}

/// Number of rows in a board.
pub const BOARD_HEIGHT: usize = 40;

/// Number of columns in a board.
pub const BOARD_WIDTH: usize = 49;

/// A fixed-size toroidal grid of cells, addressed by `(row, column)`.
pub struct Board {
    pub(crate) cells: Vec<Vec<Cell>>,
}

impl View for Board {
    type V = Seq<Seq<Cell>>;

    closed spec fn view(&self) -> Seq<Seq<Cell>> {
        Seq::new(self.cells@.len(), |r: int| self.cells@[r]@)
    }
}

/// A well-formed grid has exactly `BOARD_HEIGHT` rows of `BOARD_WIDTH` cells each.
pub open spec fn grid_wf(g: Seq<Seq<Cell>>) -> bool {
    &&& g.len() == BOARD_HEIGHT
    &&& forall|r: int| 0 <= r < g.len() ==> (#[trigger] g[r]).len() == BOARD_WIDTH
}

/// The grid with every cell `Dead`.
pub open spec fn blank_grid() -> Seq<Seq<Cell>> {
    Seq::new(BOARD_HEIGHT as nat, |r: int| Seq::new(BOARD_WIDTH as nat, |c: int| Cell::Dead))
}

/// The five cells of the glider pattern, anchored at the board's origin.
pub open spec fn glider_cell(r: int, c: int) -> bool {
    ||| (r == 0 && c == 1)
    ||| (r == 1 && c == 2)
    ||| (r == 2 && c == 0)
    ||| (r == 2 && c == 1)
    ||| (r == 2 && c == 2)
}

/// The grid `g` with the five glider cells set `Alive` and every other cell
/// left as it was.
pub open spec fn glider_seeded(g: Seq<Seq<Cell>>) -> Seq<Seq<Cell>> {
    Seq::new(
        g.len(),
        |r: int|
            Seq::new(
                g[r].len(),
                |c: int| if glider_cell(r, c) {
                    Cell::Alive
                } else {
                    g[r][c]
                },
            ),
    )
}

impl Board {
    /// The board invariant: dimensions never change after construction.
    pub open spec fn wf(&self) -> bool {
        grid_wf(self@)
    }

    /// Returns the cell at the given in-range coordinates.
    pub fn get(&self, row: usize, coll: usize) -> (c: Cell)
        requires
            self.wf(),
            row < BOARD_HEIGHT,
            coll < BOARD_WIDTH,
        ensures
            c == self@[row as int][coll as int],
    {
        self.cells[row][coll]
    }

    /// Overwrites a single cell; every other cell is left as it was.
    pub fn set(&mut self, row: usize, coll: usize, cell: Cell)
        requires
            old(self).wf(),
            row < BOARD_HEIGHT,
            coll < BOARD_WIDTH,
        ensures
            final(self).wf(),
            final(self)@ == old(self)@.update(
                row as int,
                old(self)@[row as int].update(coll as int, cell),
            ),
    {
        proof {
            // Connect the view to the underlying rows for the bounds checks.
            assert(self.cells@.len() == self@.len());
            assert(self.cells@[row as int]@ == self@[row as int]);
        }
        self.cells[row][coll] = cell;
        proof {
            assert(self@ =~~= old(self)@.update(
                row as int,
                old(self)@[row as int].update(coll as int, cell),
            ));
        }
    }
}

/// Wraps freshly built rows into a board; the view is the rows' contents.
pub(crate) fn board_from_rows(rows: Vec<Vec<Cell>>) -> (board: Board)
    ensures
        board@.len() == rows@.len(),
        forall|r: int| 0 <= r < rows@.len() ==> board@[r] == rows@[r]@,
{
    Board { cells: rows }
}

/// Returns a board with every cell `Dead`.
pub fn board_init() -> (board: Board)
    ensures
        board.wf(),
        board@ == blank_grid(),
{
    let mut rows: Vec<Vec<Cell>> = Vec::new();
    let mut row: usize = 0;
    while row < BOARD_HEIGHT
        invariant
            row <= BOARD_HEIGHT,
            rows@.len() == row,
            forall|r: int| 0 <= r < row ==> #[trigger] rows@[r]@ == blank_grid()[r],
        decreases BOARD_HEIGHT - row,
    {
        let mut cols: Vec<Cell> = Vec::new();
        let mut coll: usize = 0;
        while coll < BOARD_WIDTH
            invariant
                coll <= BOARD_WIDTH,
                cols@.len() == coll,
                forall|c: int| 0 <= c < coll ==> cols@[c] == Cell::Dead,
            decreases BOARD_WIDTH - coll,
        {
            cols.push(Cell::Dead);
            coll = coll + 1;
        }
        proof {
            assert(cols@ =~= blank_grid()[row as int]);
        }
        rows.push(cols);
        row = row + 1;
    }
    let board = Board { cells: rows };
    proof {
        assert(board@ =~~= blank_grid());
    }
    board
}

/// Stamps the glider pattern onto the board:
///
/// ```text
///   |x|
///     |x|
/// |x|x|x|
/// ```
///
/// The five glider cells become `Alive`; all other cells are left as they were.
pub fn fill_glider(board: &mut Board)
    requires
        old(board).wf(),
    ensures
        final(board).wf(),
        final(board)@ == glider_seeded(old(board)@),
{
    board.set(0, 1, Cell::Alive);
    board.set(1, 2, Cell::Alive);
    board.set(2, 0, Cell::Alive);
    board.set(2, 1, Cell::Alive);
    board.set(2, 2, Cell::Alive);
    proof {
        assert(board@ =~~= glider_seeded(old(board)@));
    }
}

} // verus!
