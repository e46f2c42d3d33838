//! A single board cell: empty, or occupied by exactly one piece.
use vstd::prelude::*;

use crate::piece::Piece;

verus! {

/// One cell of the board, holding at most one piece.
#[derive(Clone, Copy, PartialEq, Eq, PartialOrd, Ord, Debug)]
pub struct Square {
    pub piece: Option<Piece>,
}

impl Square {
    /// Creates an unoccupied square.
    pub fn empty() -> (r: Square)
        ensures
            r.piece is None,
    {
        Square { piece: None }
    }

    /// Creates a square occupied by exactly `piece`.
    pub fn from(piece: Piece) -> (r: Square)
        ensures
            r.piece == Some(piece),
    {
        Square { piece: Some(piece) }
    }

    pub fn is_empty(&self) -> (r: bool)
        ensures
            r == (self.piece is None),
    {
        self.piece.is_none()
    }

    /// Returns the occupant, or `None` for an empty square.
    pub fn get_piece(&self) -> (r: Option<Piece>)
        ensures
            r == self.piece,
    {
        self.piece
    }
}

} // verus!
