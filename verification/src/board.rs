//! The board as a mathematical object: a 3-by-3 grid of tiles, its lines, and
//! what placing one piece can and cannot change.

use vstd::prelude::*;
use crate::game::{Piece, Tile, Tiles, Winner};

verus! {

/// A grid of tiles, indexed `board[row][col]`.
pub type Board = Seq<Seq<Tile>>;

/// The grid that an array of tiles stands for.
pub open spec fn board_of(tiles: Tiles) -> Board {
    Seq::new(3, |row: int| Seq::new(3, |col: int| tiles[row][col]))
}

/// The grid says all there is to say about the tiles: arrays that stand for
/// the same grid are the same.
pub proof fn law_grid_determines_tiles(a: Tiles, b: Tiles)
    requires
        board_of(a) == board_of(b),
    ensures
        a == b,
{
    assert forall|row: int| 0 <= row < 3 implies a[row] == b[row] by {
        assert forall|col: int| 0 <= col < 3 implies a[row][col] == b[row][col] by {
            assert(board_of(a)[row][col] == a[row][col]);
            assert(board_of(b)[row][col] == b[row][col]);
        }
        assert(a[row] =~= b[row]);
    }
    assert(a =~= b);
}

/// Three rows of three tiles each.
pub open spec fn well_shaped(b: Board) -> bool {
    &&& b.len() == 3
    &&& forall|row: int| 0 <= row < 3 ==> (#[trigger] b[row]).len() == 3
}

/// `row`, `col` names a tile of the board.
pub open spec fn on_board(row: int, col: int) -> bool {
    0 <= row < 3 && 0 <= col < 3
}

/// The board with no piece on it.
pub open spec fn empty_board() -> Board {
    Seq::new(3, |row: int| Seq::new(3, |col: int| None::<Piece>))
}

/// The board with `p` at `row`, `col` and every other tile as in `b`.
pub open spec fn with_piece(b: Board, row: int, col: int, p: Piece) -> Board {
    b.update(row, b[row].update(col, Some(p)))
}

/// 1 for a tile that holds `p`, else 0.
pub open spec fn mark(t: Tile, p: Piece) -> nat {
    if t == Some(p) {
        1
    } else {
        0
    }
}

/// How many tiles of one row hold `p`.
pub open spec fn marks_in_row(r: Seq<Tile>, p: Piece) -> nat {
    mark(r[0], p) + mark(r[1], p) + mark(r[2], p)
}

/// How many tiles of the board hold `p`.
pub open spec fn marks(b: Board, p: Piece) -> nat {
    marks_in_row(b[0], p) + marks_in_row(b[1], p) + marks_in_row(b[2], p)
}

/// How many tiles of the board hold a piece.
pub open spec fn occupied(b: Board) -> nat {
    marks(b, Piece::X) + marks(b, Piece::O)
}

/// Every tile holds a piece.
pub open spec fn is_full(b: Board) -> bool {
    forall|row: int, col: int| on_board(row, col) ==> (#[trigger] b[row][col]) is Some
}

/// All three tiles of row `row` hold `p`.
pub open spec fn row_taken(b: Board, row: int, p: Piece) -> bool {
    b[row][0] == Some(p) && b[row][1] == Some(p) && b[row][2] == Some(p)
}

/// All three tiles of column `col` hold `p`.
pub open spec fn col_taken(b: Board, col: int, p: Piece) -> bool {
    b[0][col] == Some(p) && b[1][col] == Some(p) && b[2][col] == Some(p)
}

/// The diagonal from the top left to the bottom right holds `p` throughout.
pub open spec fn diagonal_taken(b: Board, p: Piece) -> bool {
    b[0][0] == Some(p) && b[1][1] == Some(p) && b[2][2] == Some(p)
}

/// The diagonal from the top right to the bottom left holds `p` throughout.
pub open spec fn antidiagonal_taken(b: Board, p: Piece) -> bool {
    b[0][2] == Some(p) && b[1][1] == Some(p) && b[2][0] == Some(p)
}

/// Some row, column or diagonal holds `p` throughout.
pub open spec fn has_line(b: Board, p: Piece) -> bool {
    ||| row_taken(b, 0, p)
    ||| row_taken(b, 1, p)
    ||| row_taken(b, 2, p)
    ||| col_taken(b, 0, p)
    ||| col_taken(b, 1, p)
    ||| col_taken(b, 2, p)
    ||| diagonal_taken(b, p)
    ||| antidiagonal_taken(b, p)
}

/// Some line that passes through `row`, `col` holds `p` throughout.
pub open spec fn line_through(b: Board, row: int, col: int, p: Piece) -> bool {
    ||| row_taken(b, row, p)
    ||| col_taken(b, col, p)
    ||| (row == col && diagonal_taken(b, p))
    ||| (row + col == 2 && antidiagonal_taken(b, p))
}

/// The result that a line of `p` stands for.
pub open spec fn win_of(p: Piece) -> Winner {
    match p {
        Piece::X => Winner::X,
        Piece::O => Winner::O,
    }
}

/// What one line of three tiles decides: a win for the piece that holds all
/// three, or nothing.
pub open spec fn line_winner(line: Seq<Tile>) -> Option<Winner> {
    match line[0] {
        Some(p) if line[1] == Some(p) && line[2] == Some(p) => Some(win_of(p)),
        _ => None,
    }
}

/// What the board decides once the tile at `row`, `col` has been filled: a win
/// for the piece there if a line through that tile is complete, else a tie if
/// no tile is left, else nothing yet.
pub open spec fn verdict(b: Board, row: int, col: int) -> Option<Winner> {
    match b[row][col] {
        Some(p) if line_through(b, row, col, p) => Some(win_of(p)),
        _ => if is_full(b) {
            Some(Winner::Tie)
        } else {
            None
        },
    }
}

/// Placing a piece adds one mark of that piece and leaves the other's count.
pub proof fn lemma_with_piece_counts(b: Board, row: int, col: int, p: Piece)
    requires
        well_shaped(b),
        on_board(row, col),
        b[row][col] is None,
    ensures
        well_shaped(with_piece(b, row, col, p)),
        marks(with_piece(b, row, col, p), p) == marks(b, p) + 1,
        marks(with_piece(b, row, col, p), p.other()) == marks(b, p.other()),
        occupied(with_piece(b, row, col, p)) == occupied(b) + 1,
{
}

/// Placing a piece changes the tile it fills and no other.
pub proof fn lemma_with_piece_tiles(b: Board, row: int, col: int, p: Piece)
    requires
        well_shaped(b),
        on_board(row, col),
    ensures
        with_piece(b, row, col, p)[row][col] == Some(p),
        forall|r: int, c: int|
            on_board(r, c) && !(r == row && c == col) ==> #[trigger] with_piece(
                b,
                row,
                col,
                p,
            )[r][c] == b[r][c],
{
}

/// A move can only complete a line through the tile it fills: on a board
/// without a complete line, the lines after placing `p` are exactly the lines
/// of `p` through the new tile.
pub proof fn lemma_new_lines_pass_through(b: Board, row: int, col: int, p: Piece)
    requires
        well_shaped(b),
        on_board(row, col),
        b[row][col] is None,
        !has_line(b, Piece::X),
        !has_line(b, Piece::O),
    ensures
        has_line(with_piece(b, row, col, p), p) == line_through(
            with_piece(b, row, col, p),
            row,
            col,
            p,
        ),
        !has_line(with_piece(b, row, col, p), p.other()),
{
}

} // verus!
