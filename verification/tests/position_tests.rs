use chess::Position;

#[test]
fn test_try_from() -> Result<(), String> {
    assert_eq!(Position::new(0, 0), Position::try_from("A1")?);
    assert_eq!(Position::new(7, 0), Position::try_from("A8")?);
    assert_eq!(Position::new(0, 7), Position::try_from("H1")?);
    assert_eq!(Position::new(7, 7), Position::try_from("H8")?);

    Ok(())
}

#[test]
fn test_new_round_trips_for_all_coordinates() {
    for row in 0..8u8 {
        for col in 0..8u8 {
            let position = Position::new(row, col);
            assert_eq!(row, position.get_row());
            assert_eq!(col, position.get_col());
        }
    }
}

#[test]
fn test_try_from_parses_every_valid_text() {
    let files = ["A", "B", "C", "D", "E", "F", "G", "H"];
    let ranks = ["1", "2", "3", "4", "5", "6", "7", "8"];
    for (col, file) in files.iter().enumerate() {
        for (row, rank) in ranks.iter().enumerate() {
            let mut text = String::new();
            text.push_str(file);
            text.push_str(rank);
            let parsed = Position::try_from(&text).unwrap();
            assert_eq!(row as u8, parsed.get_row());
            assert_eq!(col as u8, parsed.get_col());
        }
    }
}

#[test]
fn test_try_from_rejects_malformed_text() {
    assert!(Position::try_from("").is_err());
    assert!(Position::try_from("A").is_err());
    assert!(Position::try_from("A12").is_err());
    assert!(Position::try_from("I1").is_err());
    assert!(Position::try_from("a1").is_err());
    assert!(Position::try_from("A0").is_err());
    assert!(Position::try_from("A9").is_err());
    assert!(Position::try_from("AA").is_err());
    assert!(Position::try_from("11").is_err());
    assert!(Position::try_from("1A").is_err());
}

#[test]
fn test_to_text_is_rank_then_file() {
    assert_eq!("1H", Position::new(0, 7).to_text());
    assert_eq!("8A", Position::new(7, 0).to_text());
    assert_eq!("1A", Position::new(0, 0).to_text());
    assert_eq!("8H", Position::new(7, 7).to_text());
    assert_eq!("4C", Position::new(3, 2).to_text());
}
