//! Rules engine for the board game Order & Chaos.
//!
//! Two roles, Order and Chaos, alternate placing a piece of either color on
//! an empty cell of a fixed 6x6 grid. Order wins by creating a straight run
//! of exactly five like-colored pieces (horizontally, vertically, or along
//! either diagonal); a run of six or more does not count. Chaos wins by
//! filling the board without such a run ever appearing.
//!
//! The crate provides the board, move legality and turn alternation, and the
//! win evaluator, each with a verified contract. Presentation and move
//! sources are left to the embedding program.

pub mod board;
pub mod evaluator;
pub mod flow;
pub mod model;
pub mod state;
