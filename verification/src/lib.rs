//! A small verified library behind two console toys: a 3x3 two-player
//! board game and a handful of cat-style text formatters.
//!
//! `board` holds the game state machine: move validation, strict turn
//! alternation, and win detection over rows, columns and diagonals.
//! `formatter` holds pure text transformations: line numbering, end-of-line
//! markers, and a literal two-space-to-marker substitution.

pub mod board;
pub mod formatter;
