//! A verified two-player tic-tac-toe game core.
//!
//! The library owns the whole rule set of the game: cursor navigation over
//! the 3x3 board, cell placement, turn alternation, win and draw detection,
//! and the reset gate. Terminal input and rendering live outside the
//! library and only read the public state or call the public operations.

pub mod game_state;
