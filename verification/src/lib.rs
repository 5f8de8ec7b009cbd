//! A chess position model with a pseudo-legal move generator and Chess960
//! starting positions.
//!
//! The library keeps a [`board::Board`] as a plain value: 64 optional
//! pieces, the side to move, move counters, the en-passant target, cached
//! king squares, castling permissions, and a history that makes every
//! applied move exactly reversible. [`generator::generate_pseudo_legal_moves`]
//! lists the moves reachable by piece-movement rules alone; whether a move
//! leaves the mover's king in check is deliberately not examined here, so
//! callers filter the list by applying a move, inspecting the result, and
//! undoing it.
//!
//! Each operation carries a contract checked by Verus: move application is
//! specified field by field, application followed by undo is proved to
//! restore the position bit for bit, the generated move list is proved
//! equal to a specification-level function of the position — so exactly
//! the right moves appear, in a fixed deterministic order — and every
//! Chess960 starting position is proved to place the king strictly between
//! the rooks with the bishops on opposite-colored squares.

pub mod square;
pub mod piece;
pub mod moves;
pub mod setup;
pub mod board;
pub mod generator;
