//! A minimal model of a chess board's static state: coordinate addressing,
//! piece placement, and human-readable rendering. Move legality, turn order
//! and game flow are out of scope; this crate is the data model a rules
//! engine would sit on top of.
use vstd::prelude::*;

mod board;
mod piece;
mod position;
mod square;

pub use board::Board;
pub use piece::Piece;
pub use position::Position;
pub use square::Square;

verus! {

/// The two sides a piece can belong to.
#[derive(Clone, Copy, PartialEq, Eq, Structural, PartialOrd, Ord, Debug)]
pub enum Color {
    White,
    Black,
}

} // verus!
