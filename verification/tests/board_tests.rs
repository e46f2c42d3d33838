use chess::{Board, Color, Piece, Position, Square};

#[test]
fn test_get_square_index() -> Result<(), String> {
    let board = Board::empty();

    let pos = Position::try_from("A8")?;
    assert_eq!(0, board.get_square_index(&pos));

    let pos = Position::try_from("H8")?;
    assert_eq!(7, board.get_square_index(&pos));

    let pos = Position::try_from("A1")?;
    assert_eq!(56, board.get_square_index(&pos));

    let pos = Position::try_from("H1")?;
    assert_eq!(63, board.get_square_index(&pos));

    Ok(())
}

#[test]
fn test_get_add_piece() {
    let mut board = Board::empty();

    assert_eq!(Square::empty(), board.squares[0]);

    let piece = Piece::Pawn(Color::White, Position::new(7, 0));
    board.add_piece(piece);

    assert_eq!(Square::from(piece), board.squares[0]);
}

#[test]
fn test_square_index_is_a_bijection() {
    let board = Board::empty();
    let mut seen = [false; 64];
    for row in 0..8u8 {
        for col in 0..8u8 {
            let index = board.get_square_index(&Position::new(row, col));
            assert_eq!(((7 - row) as usize) * 8 + col as usize, index);
            assert!(index < 64);
            assert!(!seen[index], "two positions map to slot {}", index);
            seen[index] = true;
        }
    }
    assert!(seen.iter().all(|covered| *covered));
}

#[test]
fn test_empty_board_has_no_pieces() {
    let board = Board::empty();
    for row in 0..8u8 {
        for col in 0..8u8 {
            assert_eq!(None, board.get_piece(&Position::new(row, col)));
        }
    }
}

#[test]
fn test_default_board_standard_setup() {
    let board = Board::default();

    assert_eq!(
        Some(Piece::Rook(Color::White, Position::new(0, 0))),
        board.get_piece(&Position::new(0, 0))
    );
    assert_eq!(
        Some(Piece::King(Color::White, Position::new(0, 4))),
        board.get_piece(&Position::new(0, 4))
    );
    assert_eq!(
        Some(Piece::King(Color::Black, Position::new(7, 4))),
        board.get_piece(&Position::new(7, 4))
    );
    for col in 0..8u8 {
        assert_eq!(
            Some(Piece::Pawn(Color::White, Position::new(1, col))),
            board.get_piece(&Position::new(1, col))
        );
        assert_eq!(
            Some(Piece::Pawn(Color::Black, Position::new(6, col))),
            board.get_piece(&Position::new(6, col))
        );
    }
    for row in 2..6u8 {
        for col in 0..8u8 {
            assert_eq!(None, board.get_piece(&Position::new(row, col)));
        }
    }
}

#[test]
fn test_add_piece_is_idempotent_and_overwrites() {
    let rook = Piece::Rook(Color::Black, Position::new(3, 3));
    let queen = Piece::Queen(Color::White, Position::new(3, 3));

    let mut once = Board::empty();
    once.add_piece(rook);
    let mut twice = Board::empty();
    twice.add_piece(rook);
    twice.add_piece(rook);
    assert_eq!(once.squares, twice.squares);

    let mut board = Board::empty();
    board.add_piece(rook);
    board.add_piece(queen);
    assert_eq!(Some(queen), board.get_piece(&Position::new(3, 3)));
    for row in 0..8u8 {
        for col in 0..8u8 {
            if (row, col) != (3, 3) {
                assert_eq!(None, board.get_piece(&Position::new(row, col)));
            }
        }
    }
}

#[test]
fn test_get_square_reads_the_addressed_cell() {
    let mut board = Board::empty();
    let knight = Piece::Knight(Color::White, Position::new(4, 1));
    board.add_piece(knight);
    let square = board.get_square(&Position::new(4, 1));
    assert!(!square.is_empty());
    assert_eq!(Some(knight), square.get_piece());
    assert!(board.get_square(&Position::new(4, 2)).is_empty());
}

#[test]
fn test_render_default_board_exact_text() {
    let mut expected = String::new();
    expected.push_str("\n  ┌───┬───┬───┬───┬───┬───┬───┬───┐  ");
    expected.push_str("\n8 │ ♜ │ ♞ │ ♝ │ ♛ │ ♚ │ ♝ │ ♞ │ ♜ │ ");
    expected.push_str("\n  ├───┼───┼───┼───┼───┼───┼───┼───┤  ");
    expected.push_str("\n7 │ ♟ │ ♟ │ ♟ │ ♟ │ ♟ │ ♟ │ ♟ │ ♟ │ ");
    expected.push_str("\n  ├───┼───┼───┼───┼───┼───┼───┼───┤  ");
    expected.push_str("\n6 │   │   │   │   │   │   │   │   │ ");
    expected.push_str("\n  ├───┼───┼───┼───┼───┼───┼───┼───┤  ");
    expected.push_str("\n5 │   │   │   │   │   │   │   │   │ ");
    expected.push_str("\n  ├───┼───┼───┼───┼───┼───┼───┼───┤  ");
    expected.push_str("\n4 │   │   │   │   │   │   │   │   │ ");
    expected.push_str("\n  ├───┼───┼───┼───┼───┼───┼───┼───┤  ");
    expected.push_str("\n3 │   │   │   │   │   │   │   │   │ ");
    expected.push_str("\n  ├───┼───┼───┼───┼───┼───┼───┼───┤  ");
    expected.push_str("\n2 │ ♙ │ ♙ │ ♙ │ ♙ │ ♙ │ ♙ │ ♙ │ ♙ │ ");
    expected.push_str("\n  ├───┼───┼───┼───┼───┼───┼───┼───┤  ");
    expected.push_str("\n1 │ ♖ │ ♘ │ ♗ │ ♕ │ ♔ │ ♗ │ ♘ │ ♖ │ ");
    expected.push_str("\n  └───┴───┴───┴───┴───┴───┴───┴───┘  ");
    expected.push_str("\n    A   B   C   D   E   F   G   H    ");

    assert_eq!(expected, Board::default().render());
}

#[test]
fn test_render_shape_eight_rows_of_eight_cells() {
    let rendered = Board::default().render();

    let data_rows: Vec<&str> = rendered
        .lines()
        .filter(|line| line.starts_with(|c: char| c.is_ascii_digit()))
        .collect();
    assert_eq!(8, data_rows.len());

    let labels: Vec<&str> = data_rows
        .iter()
        .map(|line| &line[0..1])
        .collect();
    assert_eq!(vec!["8", "7", "6", "5", "4", "3", "2", "1"], labels);

    for row in &data_rows {
        // eight cell slots need nine dividing bars
        assert_eq!(9, row.matches('│').count());
        assert_eq!(37, row.chars().count() + 1);
    }
}
