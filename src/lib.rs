//! The rules engine of a terminal chess game: the board and its logs, move generation,
//! legality, check, checkmate and draw detection, castling, en passant, promotion, and
//! the state machine that sequences the plies.

pub mod coord;
pub mod pieces;
pub mod rules;
pub mod moves;
pub mod game_board;
pub mod constants;
pub mod ui;
pub mod game;
pub mod opponent;
pub mod app;
pub mod lemmas;
