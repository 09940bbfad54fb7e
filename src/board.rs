use vstd::prelude::*;

verus! {

/// Number of rows and of columns of the board.
pub const BOARD_SIZE: usize = 8;

/// A square of the board: `row` 0 is the top edge (Black's back rank),
/// `col` 0 is the leftmost column (the a-file).
#[derive(Clone, Copy, Debug, PartialEq, Eq, Structural)]
pub struct Square {
    pub row: usize,
    pub col: usize,
}

impl Square {
    pub open spec fn wf(self) -> bool {
        self.row < BOARD_SIZE && self.col < BOARD_SIZE
    }

    pub fn new(row: usize, col: usize) -> (r: Square)
        requires
            row < BOARD_SIZE,
            col < BOARD_SIZE,
        ensures
            r.row == row,
            r.col == col,
            r.wf(),
    {
        Square { row, col }
    }
}

/// The file letter of a column: 'a' for column 0 up to 'h' for column 7.
pub open spec fn file_letter(col: int) -> char {
    (97 + col) as char
}

/// The rank digit of a row: '8' for row 0 (top) down to '1' for row 7.
pub open spec fn rank_digit(row: int) -> char {
    (56 - row) as char
}

/// The engine's name of a square, such as "e2".
pub open spec fn algebraic(row: int, col: int) -> Seq<char> {
    seq![file_letter(col), rank_digit(row)]
}

/// Converts a board position (row from the top, column from the left) into
/// the engine's file-and-rank notation.
pub fn position_converter(x: usize, y: usize) -> (r: String)
    requires
        x < BOARD_SIZE,
        y < BOARD_SIZE,
    ensures
        r@ == algebraic(x as int, y as int),
{
    let files = "abcdefgh";
    let ranks = "87654321";
    proof {
        reveal_strlit("abcdefgh");
        reveal_strlit("87654321");
    }
    let file = files.substring_char(y, y + 1);
    let rank = ranks.substring_char(x, x + 1);
    let r = String::from_str(file).concat(rank);
    r
}

} // verus!
