//! Coordinates on the 8x8 grid, with textual parsing and formatting.
use vstd::prelude::*;
use vstd::string::StringExecFns;

verus! {

/// A coordinate on the board. `row` 0 is rank "1" (White's home row),
/// `col` 0 is file "A". Both fields are always in `[0, 7]` for any value
/// built through this crate's constructors; operations that consume a
/// `Position` require `wf()`.
#[derive(Clone, Copy, PartialEq, Eq, Structural, PartialOrd, Ord, Debug)]
pub struct Position {
    pub row: u8,
    pub col: u8,
}

/// A file letter accepted by the parser: 'A' through 'H'.
pub open spec fn valid_file_char(c: char) -> bool {
    'A' <= c && c <= 'H'
}

/// A rank digit accepted by the parser: '1' through '8'.
pub open spec fn valid_rank_char(c: char) -> bool {
    '1' <= c && c <= '8'
}

/// Exactly two characters, a file letter then a rank digit.
pub open spec fn valid_position_text(s: Seq<char>) -> bool {
    s.len() == 2 && valid_file_char(s[0]) && valid_rank_char(s[1])
}

/// The coordinate a valid two-character text denotes: the file letter maps
/// linearly A -> 0 .. H -> 7, the rank digit maps to `row = digit - 1`.
pub open spec fn parsed_position(s: Seq<char>) -> Position
    recommends
        valid_position_text(s),
{
    Position {
        row: ((s[1] as u32) - ('1' as u32)) as u8,
        col: ((s[0] as u32) - ('A' as u32)) as u8,
    }
}

/// The digit character naming the rank of a row: row 0 -> '1' .. row 7 -> '8'.
pub open spec fn rank_char(row: u8) -> char
    recommends
        row <= 7,
{
    if row == 0 {
        '1'
    } else if row == 1 {
        '2'
    } else if row == 2 {
        '3'
    } else if row == 3 {
        '4'
    } else if row == 4 {
        '5'
    } else if row == 5 {
        '6'
    } else if row == 6 {
        '7'
    } else {
        '8'
    }
}

/// The letter naming the file of a column: col 0 -> 'A' .. col 7 -> 'H'.
pub open spec fn file_char(col: u8) -> char
    recommends
        col <= 7,
{
    if col == 0 {
        'A'
    } else if col == 1 {
        'B'
    } else if col == 2 {
        'C'
    } else if col == 3 {
        'D'
    } else if col == 4 {
        'E'
    } else if col == 5 {
        'F'
    } else if col == 6 {
        'G'
    } else {
        'H'
    }
}

/// The one-character label of a rank, as a string slice.
pub fn rank_label(row: u8) -> (r: &'static str)
    requires
        row <= 7,
    ensures
        r@ == seq![rank_char(row)],
{
    match row {
        0 => {
            proof {
                reveal_strlit("1");
                assert("1"@ =~= seq![rank_char(row)]);
            }
            "1"
        },
        1 => {
            proof {
                reveal_strlit("2");
                assert("2"@ =~= seq![rank_char(row)]);
            }
            "2"
        },
        2 => {
            proof {
                reveal_strlit("3");
                assert("3"@ =~= seq![rank_char(row)]);
            }
            "3"
        },
        3 => {
            proof {
                reveal_strlit("4");
                assert("4"@ =~= seq![rank_char(row)]);
            }
            "4"
        },
        4 => {
            proof {
                reveal_strlit("5");
                assert("5"@ =~= seq![rank_char(row)]);
            }
            "5"
        },
        5 => {
            proof {
                reveal_strlit("6");
                assert("6"@ =~= seq![rank_char(row)]);
            }
            "6"
        },
        6 => {
            proof {
                reveal_strlit("7");
                assert("7"@ =~= seq![rank_char(row)]);
            }
            "7"
        },
        _ => {
            proof {
                reveal_strlit("8");
                assert("8"@ =~= seq![rank_char(row)]);
            }
            "8"
        },
    }
}

/// The one-character label of a file, as a string slice.
pub fn file_label(col: u8) -> (r: &'static str)
    requires
        col <= 7,
    ensures
        r@ == seq![file_char(col)],
{
    match col {
        0 => {
            proof {
                reveal_strlit("A");
                assert("A"@ =~= seq![file_char(col)]);
            }
            "A"
        },
        1 => {
            proof {
                reveal_strlit("B");
                assert("B"@ =~= seq![file_char(col)]);
            }
            "B"
        },
        2 => {
            proof {
                reveal_strlit("C");
                assert("C"@ =~= seq![file_char(col)]);
            }
            "C"
        },
        3 => {
            proof {
                reveal_strlit("D");
                assert("D"@ =~= seq![file_char(col)]);
            }
            "D"
        },
        4 => {
            proof {
                reveal_strlit("E");
                assert("E"@ =~= seq![file_char(col)]);
            }
            "E"
        },
        5 => {
            proof {
                reveal_strlit("F");
                assert("F"@ =~= seq![file_char(col)]);
            }
            "F"
        },
        6 => {
            proof {
                reveal_strlit("G");
                assert("G"@ =~= seq![file_char(col)]);
            }
            "G"
        },
        _ => {
            proof {
                reveal_strlit("H");
                assert("H"@ =~= seq![file_char(col)]);
            }
            "H"
        },
    }
}

impl Position {
    /// Both coordinates are on the board.
    pub open spec fn wf(&self) -> bool {
        self.row <= 7 && self.col <= 7
    }

    /// Creates the coordinate for a row and column number, both in `[0, 7]`.
    pub fn new(row: u8, col: u8) -> (r: Position)
        requires
            row <= 7,
            col <= 7,
        ensures
            r.row == row,
            r.col == col,
            r.wf(),
    {
        Position { row, col }
    }

    pub fn get_row(&self) -> (r: u8)
        ensures
            r == self.row,
    {
        self.row
    }

    pub fn get_col(&self) -> (r: u8)
        ensures
            r == self.col,
    {
        self.col
    }

    /// Parses a two-character file-then-rank text such as "A1" or "H8".
    /// Returns `Ok` exactly on texts matching `[A-H][1-8]`, and a
    /// descriptive error on any other input.
    pub fn try_from(s: &str) -> (r: Result<Position, String>)
        ensures
            r is Ok <==> valid_position_text(s@),
            r matches Ok(p) ==> p == parsed_position(s@) && p.wf(),
    {
        if s.unicode_len() != 2 {
            return Err(String::from_str("position text must be exactly two characters, e.g. 'A1'"));
        }
        let file = s.get_char(0);
        let rank = s.get_char(1);
        let col: u8 = match file {
            'A' => 0,
            'B' => 1,
            'C' => 2,
            'D' => 3,
            'E' => 4,
            'F' => 5,
            'G' => 6,
            'H' => 7,
            _ => {
                return Err(String::from_str("invalid file letter, expected 'A' through 'H'"));
            },
        };
        let row: u8 = match rank {
            '1' => 0,
            '2' => 1,
            '3' => 2,
            '4' => 3,
            '5' => 4,
            '6' => 5,
            '7' => 6,
            '8' => 7,
            _ => {
                return Err(String::from_str("invalid rank digit, expected '1' through '8'"));
            },
        };
        Ok(Position { row, col })
    }

    /// Formats the coordinate as its rank digit followed by its file letter:
    /// `Position { row: 0, col: 7 }` yields "1H".
    pub fn to_text(&self) -> (r: String)
        requires
            self.wf(),
        ensures
            r@ == seq![rank_char(self.row), file_char(self.col)],
    {
        let mut s = String::from_str(rank_label(self.row));
        s.append(file_label(self.col));
        proof {
            assert(s@ =~= seq![rank_char(self.row), file_char(self.col)]);
        }
        s
    }
}

} // verus!
