//! A bounded-time chess engine core: iterative-deepening alpha-beta search
//! with per-task transposition memos, material evaluation, fifty-move-rule
//! handling, mate-distance scoring, and endgame tablebase lookup.
//!
//! Scores are integers in centi-pawns: a pawn is worth 100, a checkmate
//! 100_000. Legal move generation, make-move, and terminal-state
//! classification are consumed from the `chess` crate; tablebase probing
//! from `shakmaty-syzygy`; notation rendering from `san-rs`.

pub mod engine;
pub mod oracle;
pub mod pruning;
pub mod san;
pub mod score;
pub mod search;
pub mod syzygy;
