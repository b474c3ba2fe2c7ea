//! A small chess engine built around an iterative-deepening
//! principal-variation search with a two-tier transposition table.
//!
//! The move generator, legality checks and board representation come from
//! the `chess` crate; everything the engine decides on top of them — move
//! encoding, move ordering, the static evaluators, the transposition table
//! and the search itself — lives here.

pub mod square;
pub mod game;
pub mod move_hash;
pub mod node;
pub mod eval;
pub mod tt;
pub mod move_sorter;
pub mod agent;
pub mod hash;
pub mod tuning;
pub mod command;

pub use game::{Action, BoardStatus, ChessGame, Color, GameResult, Move, Piece, Position};
