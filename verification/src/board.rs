//! The 8x8 board: 64 squares indexed by coordinate, with the standard
//! starting arrangement and textual rendering.
use vstd::prelude::*;

use crate::piece::{glyph_char, initial_piece, Piece};
use crate::position::{rank_char, rank_label, Position};
use crate::square::Square;
use crate::Color;
use vstd::string::StringExecFns;

verus! {

/// The linear storage slot of a coordinate: row 7 (rank "8") occupies
/// indices 0..8 and row 0 (rank "1") occupies indices 56..64, so storage
/// is top-rank-first.
pub open spec fn spec_square_index(position: Position) -> int {
    (7 - position.row) * 8 + position.col
}

/// The occupant a freshly set-up board holds at a coordinate: back-rank
/// pieces on rows 0 and 7, pawns on rows 1 and 6, nothing elsewhere.
pub open spec fn initial_occupant(row: u8, col: u8) -> Option<Piece>
    recommends
        row <= 7,
        col <= 7,
{
    if row == 0 {
        Some(initial_piece(Color::White, col as int))
    } else if row == 1 {
        Some(initial_piece(Color::White, col as int + 8))
    } else if row == 6 {
        Some(initial_piece(Color::Black, col as int + 8))
    } else if row == 7 {
        Some(initial_piece(Color::Black, col as int))
    } else {
        None
    }
}

/// The squares of a board after writing `piece` into the slot addressed by
/// the piece's own embedded coordinate.
pub open spec fn place_spec(squares: Seq<Square>, piece: Piece) -> Seq<Square>
    recommends
        squares.len() == 64,
        piece.spec_position().wf(),
{
    squares.update(spec_square_index(piece.spec_position()), (Square { piece: Some(piece) }))
}

/// A fixed grid of exactly 64 squares, the sole owner of its cells.
#[derive(Debug)]
pub struct Board {
    pub squares: Vec<Square>,
}

impl Board {
    /// A board always holds exactly one square per coordinate.
    pub open spec fn wf(&self) -> bool {
        self.squares@.len() == 64
    }

    /// Constructs a board with all 64 squares unoccupied.
    pub fn empty() -> (r: Board)
        ensures
            r.wf(),
            forall|i: int| 0 <= i < 64 ==> r.squares@[i].piece is None,
    {
        let mut squares: Vec<Square> = Vec::new();
        let mut i: u8 = 0;
        while i < 64
            invariant
                i <= 64,
                squares@.len() == i as int,
                forall|j: int| 0 <= j < i as int ==> squares@[j].piece is None,
            decreases 64 - i,
        {
            squares.push(Square::empty());
            i = i + 1;
        }
        Board { squares }
    }

    /// The storage index of a coordinate: `(7 - row) * 8 + col`.
    pub fn get_square_index(&self, position: &Position) -> (i: usize)
        requires
            position.wf(),
        ensures
            i == spec_square_index(*position),
            i < 64,
    {
        ((7 - position.get_row()) * 8 + position.get_col()) as usize
    }

    /// Writes `piece` into the square addressed by the piece's embedded
    /// coordinate, overwriting any previous occupant.
    pub fn add_piece(&mut self, piece: Piece)
        requires
            old(self).wf(),
            piece.spec_position().wf(),
        ensures
            final(self).wf(),
            final(self).squares@ == place_spec(old(self).squares@, piece),
    {
        let position = piece.get_position();
        let index = self.get_square_index(&position);
        self.squares[index] = Square::from(piece);
        proof {
            assert(final(self).squares@ =~= place_spec(old(self).squares@, piece));
        }
    }

    /// Returns the occupant at a coordinate, or `None` if the square is
    /// empty; defined for every in-range coordinate.
    pub fn get_piece(&self, position: &Position) -> (r: Option<Piece>)
        requires
            self.wf(),
            position.wf(),
        ensures
            r == self.squares@[spec_square_index(*position)].piece,
    {
        let index = self.get_square_index(position);
        self.squares[index].get_piece()
    }

    /// Returns the whole square at a coordinate.
    pub fn get_square(&self, position: &Position) -> (r: Square)
        requires
            self.wf(),
            position.wf(),
        ensures
            r == self.squares@[spec_square_index(*position)],
    {
        let index = self.get_square_index(position);
        self.squares[index]
    }
}

impl Default for Board {
    /// Constructs a board holding the standard starting arrangement: all
    /// 32 pieces of both colors on their home squares, everything else
    /// empty.
    fn default() -> (r: Board)
        ensures
            r.wf(),
            forall|p: Position|
                p.wf() ==> r.squares@[#[trigger] spec_square_index(p)].piece == initial_occupant(
                    p.row,
                    p.col,
                ),
    {
        let mut board = Board::empty();

        let whites = Piece::white_pieces();
        let mut i: usize = 0;
        while i < 16
            invariant
                i <= 16,
                board.wf(),
                whites@.len() == 16,
                forall|j: int| 0 <= j < 16 ==> whites@[j] == initial_piece(Color::White, j),
                forall|k: int|
                    0 <= k < 64 ==> board.squares@[k].piece == white_partial(k, i as int),
            decreases 16 - i,
        {
            let piece = whites[i];
            proof {
                lemma_initial_piece_position(Color::White, i as int);
            }
            let ghost prev = board.squares@;
            board.add_piece(piece);
            proof {
                let idx = spec_square_index(initial_piece(Color::White, i as int).spec_position());
                assert(idx == if i < 8 { 56 + i as int } else { 40 + i as int });
                assert forall|k: int|
                    0 <= k < 64 implies board.squares@[k].piece == white_partial(
                    k,
                    i as int + 1,
                ) by {
                    if k != idx {
                        assert(board.squares@[k] == prev[k]);
                        assert(prev[k].piece == white_partial(k, i as int));
                    } else {
                        assert(board.squares@[k].piece == Some(initial_piece(
                            Color::White,
                            i as int,
                        )));
                    }
                }
            }
            i = i + 1;
        }

        let blacks = Piece::black_pieces();
        let mut i: usize = 0;
        while i < 16
            invariant
                i <= 16,
                board.wf(),
                blacks@.len() == 16,
                forall|j: int| 0 <= j < 16 ==> blacks@[j] == initial_piece(Color::Black, j),
                forall|k: int|
                    0 <= k < 64 ==> board.squares@[k].piece == (if 0 <= k < i as int {
                        Some(initial_piece(Color::Black, k))
                    } else {
                        white_partial(k, 16)
                    }),
            decreases 16 - i,
        {
            let piece = blacks[i];
            proof {
                lemma_initial_piece_position(Color::Black, i as int);
            }
            let ghost prev = board.squares@;
            board.add_piece(piece);
            proof {
                let idx = spec_square_index(initial_piece(Color::Black, i as int).spec_position());
                assert(idx == i as int);
                assert forall|k: int|
                    0 <= k < 64 implies board.squares@[k].piece == (if 0 <= k < i as int + 1 {
                    Some(initial_piece(Color::Black, k))
                } else {
                    white_partial(k, 16)
                }) by {
                    if k != idx {
                        assert(board.squares@[k] == prev[k]);
                        assert(prev[k].piece == (if 0 <= k < i as int {
                            Some(initial_piece(Color::Black, k))
                        } else {
                            white_partial(k, 16)
                        }));
                    } else {
                        assert(board.squares@[k].piece == Some(initial_piece(
                            Color::Black,
                            i as int,
                        )));
                    }
                }
            }
            i = i + 1;
        }

        proof {
            assert forall|p: Position|
                p.wf() implies board.squares@[#[trigger] spec_square_index(p)].piece
                == initial_occupant(p.row, p.col) by {
                let k = spec_square_index(p);
                assert(0 <= k < 64);
                assert(board.squares@[k].piece == (if 0 <= k < 16 {
                    Some(initial_piece(Color::Black, k))
                } else {
                    white_partial(k, 16)
                }));
            }
        }
        board
    }
}

/// The occupant slot `i` holds once the first `k` pieces of the white
/// starting array have been placed on an empty board: white piece `j`
/// lands on slot `56 + j` for the back rank and `40 + j` for the pawns.
pub open spec fn white_partial(i: int, k: int) -> Option<Piece>
    recommends
        0 <= i < 64,
        0 <= k <= 16,
{
    if 56 <= i < 64 && i - 56 < k {
        Some(initial_piece(Color::White, i - 56))
    } else if 48 <= i < 56 && i - 40 < k {
        Some(initial_piece(Color::White, i - 40))
    } else {
        None
    }
}

/// The top border of the rendered grid.
pub open spec fn frame_header() -> Seq<char> {
    "\n  ┌───┬───┬───┬───┬───┬───┬───┬───┐  "@
}

/// The rule drawn between two data rows.
pub open spec fn frame_middle() -> Seq<char> {
    "\n  ├───┼───┼───┼───┼───┼───┼───┼───┤  "@
}

/// The bottom border of the rendered grid.
pub open spec fn frame_footer() -> Seq<char> {
    "\n  └───┴───┴───┴───┴───┴───┴───┴───┘  \n"@
}

/// The file-letter line printed beneath the grid.
pub open spec fn frame_columns() -> Seq<char> {
    "    A   B   C   D   E   F   G   H    "@
}

/// The three characters drawn before each cell and after the last one.
pub open spec fn cell_divider() -> Seq<char> {
    " │ "@
}

/// The character shown inside a cell: the occupant's glyph, or a blank.
pub open spec fn cell_char(sq: Square) -> char {
    match sq.piece {
        Some(p) => glyph_char(p),
        None => ' ',
    }
}

/// The first `n` cells of the data row showing print row `pr`, each a
/// divider followed by the cell character of file `A` onward.
pub open spec fn row_cells_spec(squares: Seq<Square>, pr: int, n: int) -> Seq<char>
    decreases n,
{
    if n <= 0 {
        Seq::empty()
    } else {
        row_cells_spec(squares, pr, n - 1) + cell_divider() + seq![
            cell_char(squares[(7 - pr) * 8 + (n - 1)]),
        ]
    }
}

/// One data row of the rendering, for visual row `vr` (showing chess rank
/// `8 - vr`): a newline, the rank digit, eight cells, a trailing divider.
pub open spec fn data_row_spec(squares: Seq<Square>, vr: int) -> Seq<char> {
    seq!['\n', rank_char((7 - vr) as u8)] + row_cells_spec(squares, 7 - vr, 8) + cell_divider()
}

/// What follows a data row: the middle rule, or after the last row the
/// bottom border and the file-letter line.
pub open spec fn row_tail_spec(vr: int) -> Seq<char> {
    if vr < 7 {
        frame_middle()
    } else {
        frame_footer() + frame_columns()
    }
}

/// The first `n` data rows, each with what follows it.
pub open spec fn rows_spec(squares: Seq<Square>, n: int) -> Seq<char>
    decreases n,
{
    if n <= 0 {
        Seq::empty()
    } else {
        rows_spec(squares, n - 1) + data_row_spec(squares, n - 1) + row_tail_spec(n - 1)
    }
}

/// The complete rendering of a board's squares: the top border, then the
/// eight data rows top rank first, separated by rules and closed by the
/// bottom border and the file letters.
pub open spec fn render_spec(squares: Seq<Square>) -> Seq<char> {
    frame_header() + rows_spec(squares, 8)
}

impl Board {
    /// Produces the display-ready multi-line text of the board: a boxed
    /// grid with rank labels descending 8 to 1 on the left, one glyph or
    /// blank per cell, and the file letters A to H beneath.
    pub fn render(&self) -> (r: String)
        requires
            self.wf(),
        ensures
            r@ == render_spec(self.squares@),
    {
        let ghost b = self.squares@;
        let mut s = String::from_str("\n  ┌───┬───┬───┬───┬───┬───┬───┬───┐  ");
        proof {
            assert(s@ =~= frame_header() + rows_spec(b, 0));
        }
        let mut vr: u8 = 0;
        while vr < 8
            invariant
                vr <= 8,
                self.wf(),
                b == self.squares@,
                s@ == frame_header() + rows_spec(b, vr as int),
            decreases 8 - vr,
        {
            let pr: u8 = 7 - vr;
            s.append("\n");
            s.append(rank_label(pr));
            proof {
                reveal_strlit("\n");
                assert(s@ =~= frame_header() + rows_spec(b, vr as int) + seq![
                    '\n',
                    rank_char(pr),
                ] + row_cells_spec(b, pr as int, 0));
            }
            let mut col: u8 = 0;
            while col < 8
                invariant
                    col <= 8,
                    vr < 8,
                    pr == 7 - vr,
                    self.wf(),
                    b == self.squares@,
                    s@ == frame_header() + rows_spec(b, vr as int) + seq!['\n', rank_char(pr)]
                        + row_cells_spec(b, pr as int, col as int),
                decreases 8 - col,
            {
                s.append(" │ ");
                let pos = Position::new(pr, col);
                match self.get_piece(&pos) {
                    Some(piece) => {
                        s.append(piece.render_glyph());
                    },
                    None => {
                        s.append(" ");
                        proof {
                            reveal_strlit(" ");
                        }
                    },
                }
                proof {
                    assert(s@ =~= frame_header() + rows_spec(b, vr as int) + seq![
                        '\n',
                        rank_char(pr),
                    ] + row_cells_spec(b, pr as int, col as int + 1));
                }
                col = col + 1;
            }
            s.append(" │ ");
            if vr == 7 {
                s.append("\n  └───┴───┴───┴───┴───┴───┴───┴───┘  \n");
                s.append("    A   B   C   D   E   F   G   H    ");
            } else {
                s.append("\n  ├───┼───┼───┼───┼───┼───┼───┼───┤  ");
            }
            proof {
                assert(rows_spec(b, vr as int + 1) == rows_spec(b, vr as int) + data_row_spec(
                    b,
                    vr as int,
                ) + row_tail_spec(vr as int));
                assert(s@ =~= frame_header() + rows_spec(b, vr as int + 1));
            }
            vr = vr + 1;
        }
        s
    }
}

/// The in-range coordinate stored at linear slot `i`.
pub open spec fn slot_position(i: int) -> Position
    recommends
        0 <= i < 64,
{
    Position { row: (7 - i / 8) as u8, col: (i % 8) as u8 }
}

/// Law: the coordinate-to-slot mapping is a bijection between the 64
/// in-range coordinates and the 64 storage slots — every coordinate lands
/// on a distinct slot, and every slot is some coordinate's.
pub proof fn lemma_square_index_bijective()
    ensures
        forall|p: Position| p.wf() ==> 0 <= #[trigger] spec_square_index(p) < 64,
        forall|p: Position| p.wf() ==> slot_position(#[trigger] spec_square_index(p)) == p,
        forall|i: int|
            0 <= i < 64 ==> (#[trigger] slot_position(i)).wf() && spec_square_index(
                slot_position(i),
            ) == i,
{
}

/// Law: on a board whose squares are all unoccupied, lookup yields `None`
/// at every in-range coordinate.
pub proof fn lemma_empty_board_has_no_piece(board: Board, position: Position)
    requires
        board.wf(),
        position.wf(),
        forall|i: int| 0 <= i < 64 ==> board.squares@[i].piece is None,
    ensures
        board.squares@[spec_square_index(position)].piece is None,
{
}

/// Law: placement always overwrites — the addressed slot holds exactly the
/// new piece, with no trace of a previous occupant, and every other square
/// is untouched — and repeating the identical placement changes nothing.
pub proof fn lemma_place_overwrites_and_is_idempotent(squares: Seq<Square>, piece: Piece)
    requires
        squares.len() == 64,
        piece.spec_position().wf(),
    ensures
        place_spec(squares, piece)[spec_square_index(piece.spec_position())] == (Square {
            piece: Some(piece),
        }),
        forall|j: int|
            0 <= j < 64 && j != spec_square_index(piece.spec_position())
                ==> #[trigger] place_spec(squares, piece)[j] == squares[j],
        place_spec(place_spec(squares, piece), piece) == place_spec(squares, piece),
{
    assert(place_spec(place_spec(squares, piece), piece) =~= place_spec(squares, piece));
}

/// The cell character of file column `c` inside a cell run, counted from
/// the run's start.
pub open spec fn run_cell_slot(cells: Seq<char>, c: int) -> char {
    cells[4 * c + 3]
}

/// The cell character of file column `c` inside a full data row: two label
/// characters come first, then four characters per cell.
pub open spec fn row_cell_slot(row: Seq<char>, c: int) -> char {
    row[4 * c + 5]
}

proof fn lemma_row_cells_shape(squares: Seq<Square>, pr: int, n: int)
    requires
        0 <= n <= 8,
    ensures
        row_cells_spec(squares, pr, n).len() == 4 * n,
        forall|c: int|
            0 <= c < n ==> #[trigger] run_cell_slot(row_cells_spec(squares, pr, n), c)
                == cell_char(squares[(7 - pr) * 8 + c]),
    decreases n,
{
    reveal_strlit(" │ ");
    if n > 0 {
        lemma_row_cells_shape(squares, pr, n - 1);
        assert forall|c: int|
            0 <= c < n implies #[trigger] run_cell_slot(row_cells_spec(squares, pr, n), c)
            == cell_char(squares[(7 - pr) * 8 + c]) by {
            if c < n - 1 {
                assert(run_cell_slot(row_cells_spec(squares, pr, n), c) == run_cell_slot(
                    row_cells_spec(squares, pr, n - 1),
                    c,
                ));
            }
        }
    }
}

/// Law, first half: every data row is exactly 37 characters — a newline,
/// the rank digit, then exactly eight cell slots of four characters each,
/// and a closing divider.
pub proof fn lemma_data_row_shape(squares: Seq<Square>, vr: int)
    requires
        squares.len() == 64,
        0 <= vr < 8,
    ensures
        data_row_spec(squares, vr).len() == 37,
        data_row_spec(squares, vr)[0] == '\n',
        data_row_spec(squares, vr)[1] == rank_char((7 - vr) as u8),
        forall|c: int|
            0 <= c < 8 ==> #[trigger] row_cell_slot(data_row_spec(squares, vr), c) == cell_char(
                squares[vr * 8 + c],
            ),
{
    reveal_strlit(" │ ");
    lemma_row_cells_shape(squares, 7 - vr, 8);
    assert forall|c: int|
        0 <= c < 8 implies #[trigger] row_cell_slot(data_row_spec(squares, vr), c) == cell_char(
        squares[vr * 8 + c],
    ) by {
        assert(row_cell_slot(data_row_spec(squares, vr), c) == run_cell_slot(
            row_cells_spec(squares, 7 - vr, 8),
            c,
        ));
    }
}

/// Where data row `vr` starts inside the rendering.
pub open spec fn data_row_offset(vr: int) -> int {
    frame_header().len() + vr * (37 + frame_middle().len())
}

/// The 37-character slice of the rendering where data row `vr` stands.
pub open spec fn rendered_data_row(squares: Seq<Square>, vr: int) -> Seq<char> {
    render_spec(squares).subrange(data_row_offset(vr), data_row_offset(vr) + 37)
}

proof fn lemma_rows_spec_len(squares: Seq<Square>, n: int)
    requires
        squares.len() == 64,
        0 <= n <= 8,
    ensures
        rows_spec(squares, n).len() == n * 37 + (if n <= 7 {
            n
        } else {
            7
        }) * frame_middle().len() + (if n == 8 {
            frame_footer().len() + frame_columns().len()
        } else {
            0
        }),
    decreases n,
{
    let m = frame_middle().len() as int;
    if n > 0 {
        lemma_rows_spec_len(squares, n - 1);
        lemma_data_row_shape(squares, n - 1);
        assert((n - 1) * m + m == n * m) by (nonlinear_arith);
        assert((n - 1) * 37 + 37 == n * 37) by (nonlinear_arith);
    } else {
        assert(0 * 37 + 0 * m + 0 == 0) by (nonlinear_arith);
    }
}

proof fn lemma_rows_spec_row(squares: Seq<Square>, n: int, vr: int)
    requires
        squares.len() == 64,
        0 <= vr < n <= 8,
    ensures
        rows_spec(squares, n).subrange(
            vr * (37 + frame_middle().len()),
            vr * (37 + frame_middle().len()) + 37,
        ) == data_row_spec(squares, vr),
    decreases n,
{
    let m = frame_middle().len() as int;
    let start = vr * (37 + m);
    let prefix = rows_spec(squares, n - 1);
    let whole = rows_spec(squares, n);
    lemma_rows_spec_len(squares, n - 1);
    lemma_data_row_shape(squares, n - 1);
    assert(0 <= vr * (37 + m)) by (nonlinear_arith)
        requires
            0 <= vr,
            0 <= m,
    ;
    if vr < n - 1 {
        lemma_rows_spec_row(squares, n - 1, vr);
        assert(vr * (37 + m) + 37 <= (n - 1) * 37 + (n - 1) * m) by (nonlinear_arith)
            requires
                0 <= vr <= n - 2,
                0 <= m,
        ;
        assert(start + 37 <= prefix.len());
        assert(whole.subrange(start, start + 37) =~= prefix.subrange(start, start + 37));
    } else {
        assert((n - 1) * (37 + m) == (n - 1) * 37 + (n - 1) * m) by (nonlinear_arith);
        assert(start == prefix.len());
        lemma_data_row_shape(squares, vr);
        assert(whole.subrange(start, start + 37) =~= data_row_spec(squares, vr));
    }
}

/// Law, second half: the rendering of any full board consists of exactly
/// eight data rows at fixed offsets, bounded by the fixed header, the
/// seven middle rules, the bottom border and the file-letter line.
pub proof fn lemma_render_shape(squares: Seq<Square>)
    requires
        squares.len() == 64,
    ensures
        render_spec(squares).len() == frame_header().len() + 8 * 37 + 7 * frame_middle().len()
            + frame_footer().len() + frame_columns().len(),
        forall|vr: int|
            0 <= vr < 8 ==> #[trigger] rendered_data_row(squares, vr) == data_row_spec(
                squares,
                vr,
            ),
{
    lemma_rows_spec_len(squares, 8);
    assert forall|vr: int|
        0 <= vr < 8 implies #[trigger] rendered_data_row(squares, vr) == data_row_spec(
        squares,
        vr,
    ) by {
        let m = frame_middle().len() as int;
        let start = vr * (37 + m);
        lemma_rows_spec_row(squares, 8, vr);
        assert(0 <= vr * (37 + m) && vr * (37 + m) + 37 <= 8 * 37 + 7 * m) by (nonlinear_arith)
            requires
                0 <= vr <= 7,
                0 <= m,
        ;
        assert(rendered_data_row(squares, vr) =~= rows_spec(squares, 8).subrange(
            start,
            start + 37,
        ));
    }
}

/// The coordinate embedded in the `i`-th piece of a color's starting array,
/// and the storage slot it therefore lands on.
proof fn lemma_initial_piece_position(color: Color, i: int)
    requires
        0 <= i < 16,
    ensures
        initial_piece(color, i).spec_position().wf(),
        initial_piece(color, i).spec_position().row == (if i < 8 {
            crate::piece::back_rank_row(color)
        } else {
            crate::piece::pawn_rank_row(color)
        }),
        initial_piece(color, i).spec_position().col == (if i < 8 {
            i
        } else {
            i - 8
        }),
{
}

} // verus!
