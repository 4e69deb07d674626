//! Move selection for a turn-based snake game played on a grid.
//!
//! Each turn the agent is handed the board and its own snake and answers
//! with one of four directions. The decision is a safety filter (no turning
//! back onto the neck, no stepping off the board) followed by a random pick
//! among the moves that survive it.

mod model;
mod logic;
mod laws;

pub use model::{Battlesnake, Board, Coord, Direction, Game, Info};
pub use logic::{end, get_info, get_move, safe_moves, settle_move, start, valid_move};
pub use laws::{lemma_boundary_rejection, lemma_filter_deterministic, lemma_filter_repeatable, lemma_neck_never_offered};
