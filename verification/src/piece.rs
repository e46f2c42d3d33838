//! The six piece kinds, each carrying its color and current coordinate,
//! with the standard starting array and display glyphs.
use vstd::prelude::*;

use crate::position::Position;
use crate::Color;

verus! {

/// A chess piece: its kind is the variant, and every variant carries the
/// owning color and the coordinate the piece currently sits on.
#[derive(Clone, Copy, PartialEq, Eq, PartialOrd, Ord, Debug)]
pub enum Piece {
    King(Color, Position),
    Queen(Color, Position),
    Rook(Color, Position),
    Bishop(Color, Position),
    Knight(Color, Position),
    Pawn(Color, Position),
}

/// The row a color's non-pawn pieces start on: rank "1" for White,
/// rank "8" for Black.
pub open spec fn back_rank_row(color: Color) -> u8 {
    if color is White {
        0
    } else {
        7
    }
}

/// The row a color's pawns start on: rank "2" for White, rank "7" for Black.
pub open spec fn pawn_rank_row(color: Color) -> u8 {
    if color is White {
        1
    } else {
        6
    }
}

/// The back-rank piece standing at column `index` in the standard starting
/// array: Rook, Knight, Bishop, Queen, King, Bishop, Knight, Rook.
pub open spec fn back_rank_piece(color: Color, index: int, position: Position) -> Piece
    recommends
        0 <= index <= 7,
{
    if index == 0 || index == 7 {
        Piece::Rook(color, position)
    } else if index == 1 || index == 6 {
        Piece::Knight(color, position)
    } else if index == 2 || index == 5 {
        Piece::Bishop(color, position)
    } else if index == 3 {
        Piece::Queen(color, position)
    } else {
        Piece::King(color, position)
    }
}

/// The `i`-th piece of a color's standard starting array: the eight
/// back-rank pieces left to right, then the eight pawns left to right.
pub open spec fn initial_piece(color: Color, i: int) -> Piece
    recommends
        0 <= i < 16,
{
    if i < 8 {
        back_rank_piece(color, i, Position { row: back_rank_row(color), col: i as u8 })
    } else {
        Piece::Pawn(color, Position { row: pawn_rank_row(color), col: (i - 8) as u8 })
    }
}

/// The single-character glyph a piece renders as, one of twelve fixed
/// symbols (six kinds, two colors).
pub open spec fn glyph_char(p: Piece) -> char {
    match p {
        Piece::King(c, _) => if c is White {
            '♔'
        } else {
            '♚'
        },
        Piece::Queen(c, _) => if c is White {
            '♕'
        } else {
            '♛'
        },
        Piece::Rook(c, _) => if c is White {
            '♖'
        } else {
            '♜'
        },
        Piece::Bishop(c, _) => if c is White {
            '♗'
        } else {
            '♝'
        },
        Piece::Knight(c, _) => if c is White {
            '♘'
        } else {
            '♞'
        },
        Piece::Pawn(c, _) => if c is White {
            '♙'
        } else {
            '♟'
        },
    }
}

impl Piece {
    /// The color embedded in the piece, whatever the variant.
    pub open spec fn spec_color(&self) -> Color {
        match *self {
            Piece::King(c, _) => c,
            Piece::Queen(c, _) => c,
            Piece::Rook(c, _) => c,
            Piece::Bishop(c, _) => c,
            Piece::Knight(c, _) => c,
            Piece::Pawn(c, _) => c,
        }
    }

    /// The coordinate embedded in the piece, whatever the variant.
    pub open spec fn spec_position(&self) -> Position {
        match *self {
            Piece::King(_, p) => p,
            Piece::Queen(_, p) => p,
            Piece::Rook(_, p) => p,
            Piece::Bishop(_, p) => p,
            Piece::Knight(_, p) => p,
            Piece::Pawn(_, p) => p,
        }
    }

    /// Constructs the sixteen initial white pieces.
    pub fn white_pieces() -> (r: Vec<Piece>)
        ensures
            r@.len() == 16,
            forall|i: int| 0 <= i < 16 ==> r@[i] == initial_piece(Color::White, i),
    {
        Self::initial_pieces(Color::White)
    }

    /// Constructs the sixteen initial black pieces.
    pub fn black_pieces() -> (r: Vec<Piece>)
        ensures
            r@.len() == 16,
            forall|i: int| 0 <= i < 16 ==> r@[i] == initial_piece(Color::Black, i),
    {
        Self::initial_pieces(Color::Black)
    }

    /// Builds a color's standard starting array: back rank first, then pawns.
    fn initial_pieces(color: Color) -> (r: Vec<Piece>)
        ensures
            r@.len() == 16,
            forall|i: int| 0 <= i < 16 ==> r@[i] == initial_piece(color, i),
    {
        let mut pieces: Vec<Piece> = Vec::new();

        let back_rank: u8 = if color == Color::White {
            0
        } else {
            7
        };
        let pawn_rank: u8 = if color == Color::White {
            1
        } else {
            6
        };

        let mut i: u8 = 0;
        while i < 8
            invariant
                i <= 8,
                back_rank == back_rank_row(color),
                pieces@.len() == i as int,
                forall|j: int| 0 <= j < i as int ==> pieces@[j] == initial_piece(color, j),
            decreases 8 - i,
        {
            let position = Position::new(back_rank, i);
            let piece = Self::get_piece_by_index(i, color, position);
            pieces.push(piece);
            i = i + 1;
        }

        let mut i: u8 = 0;
        while i < 8
            invariant
                i <= 8,
                pawn_rank == pawn_rank_row(color),
                pieces@.len() == 8 + i as int,
                forall|j: int| 0 <= j < 8 + i as int ==> pieces@[j] == initial_piece(color, j),
            decreases 8 - i,
        {
            let position = Position::new(pawn_rank, i);
            pieces.push(Piece::Pawn(color, position));
            i = i + 1;
        }

        pieces
    }

    /// The back-rank piece kind for a column of the starting array, applied
    /// to a color and coordinate.
    pub fn get_piece_by_index(index: u8, color: Color, position: Position) -> (r: Piece)
        requires
            index <= 7,
        ensures
            r == back_rank_piece(color, index as int, position),
    {
        match index {
            0 => Piece::Rook(color, position),
            1 => Piece::Knight(color, position),
            2 => Piece::Bishop(color, position),
            3 => Piece::Queen(color, position),
            4 => Piece::King(color, position),
            5 => Piece::Bishop(color, position),
            6 => Piece::Knight(color, position),
            7 => Piece::Rook(color, position),
            _ => unreached(),
        }
    }

    pub fn get_color(&self) -> (c: Color)
        ensures
            c == self.spec_color(),
    {
        match *self {
            Piece::King(c, _) => c,
            Piece::Queen(c, _) => c,
            Piece::Rook(c, _) => c,
            Piece::Bishop(c, _) => c,
            Piece::Knight(c, _) => c,
            Piece::Pawn(c, _) => c,
        }
    }

    pub fn get_position(&self) -> (p: Position)
        ensures
            p == self.spec_position(),
    {
        match *self {
            Piece::King(_, p) => p,
            Piece::Queen(_, p) => p,
            Piece::Rook(_, p) => p,
            Piece::Bishop(_, p) => p,
            Piece::Knight(_, p) => p,
            Piece::Pawn(_, p) => p,
        }
    }

    /// The piece's display glyph as a one-character string slice.
    pub fn render_glyph(&self) -> (r: &'static str)
        ensures
            r@ == seq![glyph_char(*self)],
    {
        match *self {
            Piece::King(Color::White, _) => {
                proof {
                    reveal_strlit("♔");
                    assert("♔"@ =~= seq![glyph_char(*self)]);
                }
                "♔"
            },
            Piece::King(Color::Black, _) => {
                proof {
                    reveal_strlit("♚");
                    assert("♚"@ =~= seq![glyph_char(*self)]);
                }
                "♚"
            },
            Piece::Queen(Color::White, _) => {
                proof {
                    reveal_strlit("♕");
                    assert("♕"@ =~= seq![glyph_char(*self)]);
                }
                "♕"
            },
            Piece::Queen(Color::Black, _) => {
                proof {
                    reveal_strlit("♛");
                    assert("♛"@ =~= seq![glyph_char(*self)]);
                }
                "♛"
            },
            Piece::Rook(Color::White, _) => {
                proof {
                    reveal_strlit("♖");
                    assert("♖"@ =~= seq![glyph_char(*self)]);
                }
                "♖"
            },
            Piece::Rook(Color::Black, _) => {
                proof {
                    reveal_strlit("♜");
                    assert("♜"@ =~= seq![glyph_char(*self)]);
                }
                "♜"
            },
            Piece::Bishop(Color::White, _) => {
                proof {
                    reveal_strlit("♗");
                    assert("♗"@ =~= seq![glyph_char(*self)]);
                }
                "♗"
            },
            Piece::Bishop(Color::Black, _) => {
                proof {
                    reveal_strlit("♝");
                    assert("♝"@ =~= seq![glyph_char(*self)]);
                }
                "♝"
            },
            Piece::Knight(Color::White, _) => {
                proof {
                    reveal_strlit("♘");
                    assert("♘"@ =~= seq![glyph_char(*self)]);
                }
                "♘"
            },
            Piece::Knight(Color::Black, _) => {
                proof {
                    reveal_strlit("♞");
                    assert("♞"@ =~= seq![glyph_char(*self)]);
                }
                "♞"
            },
            Piece::Pawn(Color::White, _) => {
                proof {
                    reveal_strlit("♙");
                    assert("♙"@ =~= seq![glyph_char(*self)]);
                }
                "♙"
            },
            Piece::Pawn(Color::Black, _) => {
                proof {
                    reveal_strlit("♟");
                    assert("♟"@ =~= seq![glyph_char(*self)]);
                }
                "♟"
            },
        }
    }
}

} // verus!
