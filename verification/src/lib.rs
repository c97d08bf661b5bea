//! Conway's Game of Life on a fixed-size toroidal grid.
//!
//! The engine is the board representation, the toroidal neighbour counter and
//! the generation stepper; rendering and input handling live outside it and
//! only read and write cells through `get` and `set`.

pub mod board;
pub mod laws;
pub mod rules;

pub use board::blank_grid;
pub use board::board_init;
pub use board::fill_glider;
pub use board::glider_cell;
pub use board::glider_seeded;
pub use board::grid_wf;
pub use board::Board;
pub use board::Cell;
pub use board::BOARD_HEIGHT;
pub use board::BOARD_WIDTH;
pub use rules::count_neighbours;
pub use rules::neighbor_count;
pub use rules::neighbor_weight;
pub use rules::next;
pub use rules::step;
pub use rules::step_cell;
pub use rules::weight;
pub use rules::wrap;
