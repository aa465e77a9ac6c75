//! Rules engine for a two-player tic-tac-toe session: move validation, turn
//! alternation, win and tie detection, and the registry counter that gives
//! each new game its session number.
pub mod board;
pub mod game;
pub mod lemmas;
pub mod session;
