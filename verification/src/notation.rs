//! The board in writing: moves as the players type them, tiles as they are
//! shown.

use vstd::prelude::*;
use vstd::string::StringExecFns;
use crate::board::{board_of, on_board, Board};
use crate::game::{Piece, Tile, Tiles, BOARD_SIZE};

verus! {

/// A move that could not be read, with the text that is reported back.
#[derive(Debug)]
pub struct InvalidMove(pub String);

impl Clone for InvalidMove {
    fn clone(&self) -> (copy: InvalidMove)
        ensures
            copy.0@ == self.0@,
    {
        InvalidMove(self.0.clone())
    }
}

/// The row that a character names: `1`, `2` or `3` from the top.
pub open spec fn row_named(c: char) -> Option<usize> {
    if c == '1' {
        Some(0usize)
    } else if c == '2' {
        Some(1usize)
    } else if c == '3' {
        Some(2usize)
    } else {
        None
    }
}

/// The column that a character names: `A`, `B` or `C` from the left, in
/// either case.
pub open spec fn col_named(c: char) -> Option<usize> {
    if c == 'A' || c == 'a' {
        Some(0usize)
    } else if c == 'B' || c == 'b' {
        Some(1usize)
    } else if c == 'C' || c == 'c' {
        Some(2usize)
    } else {
        None
    }
}

/// Whether `c` takes one byte in a string.
pub open spec fn one_byte(c: char) -> bool {
    c <= '\u{7f}'
}

/// What a typed move means. A move is written in two bytes, which are two
/// characters of one byte each: a row, then a column, such as `1A`. Any other
/// text is refused and reported back: the whole text where it has another
/// length or starts with no row, the second character alone where the row is
/// good and the column is not.
pub open spec fn parsed_move(s: Seq<char>) -> Result<(usize, usize), Seq<char>> {
    if s.len() == 2 && one_byte(s[0]) && one_byte(s[1]) {
        match row_named(s[0]) {
            None => Err(s),
            Some(row) => match col_named(s[1]) {
                None => Err(seq![s[1]]),
                Some(col) => Ok((row, col)),
            },
        }
    } else {
        Err(s)
    }
}

/// Reads a move as a player types it: `Ok` with the row and the column,
/// counted from zero, or `Err` with the text to report back.
pub fn parse_move(input: &str) -> (r: Result<(usize, usize), InvalidMove>)
    ensures
        match parsed_move(input@) {
            Ok(position) => r matches Ok(p) && p == position,
            Err(text) => r matches Err(e) && e.0@ == text,
        },
{
    // Input should consist of exactly one row and one col, a byte each
    if input.unicode_len() != 2 {
        return Err(InvalidMove(String::from_str(input)));
    }
    let first = input.get_char(0);
    let second = input.get_char(1);
    if first > '\u{7f}' || second > '\u{7f}' {
        return Err(InvalidMove(String::from_str(input)));
    }
    // Valid rows are 1-3
    let row: usize = if first == '1' {
        0
    } else if first == '2' {
        1
    } else if first == '3' {
        2
    } else {
        return Err(InvalidMove(String::from_str(input)));
    };

    // Valid cols are A-C, ignoring case
    let col: usize = if second == 'A' || second == 'a' {
        0
    } else if second == 'B' || second == 'b' {
        1
    } else if second == 'C' || second == 'c' {
        2
    } else {
        let invalid = input.substring_char(1, 2);
        assert(invalid@ == seq![input@[1]]);
        return Err(InvalidMove(String::from_str(invalid)));
    };
    Ok((row, col))
}

/// The character that names a row: `1` for the top row.
pub open spec fn row_name(row: int) -> char {
    if row == 0 {
        '1'
    } else if row == 1 {
        '2'
    } else {
        '3'
    }
}

/// The character that names a column: `A` for the left column.
pub open spec fn col_name(col: int) -> char {
    if col == 0 {
        'A'
    } else if col == 1 {
        'B'
    } else {
        'C'
    }
}

/// The text that names a row.
fn row_label(row: usize) -> (s: &'static str)
    requires
        row < 3,
    ensures
        s@ == seq![row_name(row as int)],
{
    proof {
        reveal_strlit("1");
        reveal_strlit("2");
        reveal_strlit("3");
    }
    let s = if row == 0 {
        "1"
    } else if row == 1 {
        "2"
    } else {
        "3"
    };
    assert(s@ =~= seq![row_name(row as int)]);
    s
}

/// The text that names a column.
fn col_label(col: usize) -> (s: &'static str)
    requires
        col < 3,
    ensures
        s@ == seq![col_name(col as int)],
{
    proof {
        reveal_strlit("A");
        reveal_strlit("B");
        reveal_strlit("C");
    }
    let s = if col == 0 {
        "A"
    } else if col == 1 {
        "B"
    } else {
        "C"
    };
    assert(s@ =~= seq![col_name(col as int)]);
    s
}

/// The name of the tile at `row`, `col` as a player types it: the row, then
/// the column in upper case.
pub fn tile_name(row: usize, col: usize) -> (name: String)
    requires
        on_board(row as int, col as int),
    ensures
        name@ == seq![row_name(row as int), col_name(col as int)],
{
    let name = String::from_str(row_label(row)).concat(col_label(col));
    assert(name@ =~= seq![row_name(row as int), col_name(col as int)]);
    name
}

/// Every tile's name reads back as that tile.
pub proof fn law_tile_name_reads_back(row: usize, col: usize)
    requires
        on_board(row as int, col as int),
    ensures
        parsed_move(seq![row_name(row as int), col_name(col as int)]) == Ok::<
            (usize, usize),
            Seq<char>,
        >((row, col)),
{
}

/// The character that shows a piece.
pub open spec fn piece_glyph(p: Piece) -> char {
    match p {
        Piece::X => 'x',
        Piece::O => 'o',
    }
}

/// The character that shows a tile: its piece, or an empty square.
pub open spec fn tile_glyph(t: Tile) -> char {
    match t {
        Some(p) => piece_glyph(p),
        None => '\u{25a2}',
    }
}

/// The text that shows a piece.
pub fn piece_symbol(p: Piece) -> (s: &'static str)
    ensures
        s@ == seq![piece_glyph(p)],
{
    proof {
        reveal_strlit("x");
        reveal_strlit("o");
    }
    let s = match p {
        Piece::X => "x",
        Piece::O => "o",
    };
    assert(s@ =~= seq![piece_glyph(p)]);
    s
}

/// The text that shows a tile.
pub fn tile_symbol(t: Tile) -> (s: &'static str)
    ensures
        s@ == seq![tile_glyph(t)],
{
    proof {
        reveal_strlit("\u{25a2}");
    }
    let s = match t {
        Some(p) => piece_symbol(p),
        None => "\u{25a2}",
    };
    assert(s@ =~= seq![tile_glyph(t)]);
    s
}

/// The names of the first `upto` columns, each after a space.
pub open spec fn col_names_text(upto: int) -> Seq<char>
    decreases upto,
{
    if upto <= 0 {
        Seq::empty()
    } else {
        col_names_text(upto - 1) + seq![' ', col_name(upto - 1)]
    }
}

/// The first `upto` tiles of a row, each after a space.
pub open spec fn tiles_text(r: Seq<Tile>, upto: int) -> Seq<char>
    decreases upto,
{
    if upto <= 0 {
        Seq::empty()
    } else {
        tiles_text(r, upto - 1) + seq![' ', tile_glyph(r[upto - 1])]
    }
}

/// One line of the picture: the name of the row after a space, then its
/// tiles.
pub open spec fn row_text(b: Board, row: int) -> Seq<char> {
    seq![' ', row_name(row)] + tiles_text(b[row], 3) + seq!['\n']
}

/// The lines of the first `upto` rows.
pub open spec fn rows_text(b: Board, upto: int) -> Seq<char>
    decreases upto,
{
    if upto <= 0 {
        Seq::empty()
    } else {
        rows_text(b, upto - 1) + row_text(b, upto - 1)
    }
}

/// The picture of a board: a line that names the columns, a line for each
/// row, and an empty line.
pub open spec fn board_text(b: Board) -> Seq<char> {
    seq![' ', ' '] + col_names_text(3) + seq!['\n'] + rows_text(b, 3) + seq!['\n']
}

/// The picture of the board, ready to be printed.
pub fn render_tiles(tiles: &Tiles) -> (text: String)
    ensures
        text@ == board_text(board_of(*tiles)),
{
    proof {
        reveal_strlit("  ");
        reveal_strlit(" ");
        reveal_strlit("\n");
    }
    let ghost b = board_of(*tiles);
    let mut text = String::from_str("  ");
    assert(text@ =~= seq![' ', ' '] + col_names_text(0));

    // Column headers
    for j in 0..BOARD_SIZE
        invariant
            text@ == seq![' ', ' '] + col_names_text(j as int),
    {
        proof {
            reveal_strlit(" ");
        }
        text.append(" ");
        text.append(col_label(j));
        assert(text@ =~= seq![' ', ' '] + col_names_text(j + 1));
    }
    text.append("\n");
    assert(text@ =~= seq![' ', ' '] + col_names_text(3) + seq!['\n'] + rows_text(b, 0));

    // One line for each row
    for i in 0..BOARD_SIZE
        invariant
            b == board_of(*tiles),
            text@ == seq![' ', ' '] + col_names_text(3) + seq!['\n'] + rows_text(b, i as int),
    {
        proof {
            reveal_strlit(" ");
            reveal_strlit("\n");
        }
        let ghost before = text@;
        text.append(" ");
        text.append(row_label(i));
        assert(text@ =~= before + seq![' ', row_name(i as int)] + tiles_text(b[i as int], 0));
        for j in 0..BOARD_SIZE
            invariant
                i < 3,
                b == board_of(*tiles),
                text@ == before + seq![' ', row_name(i as int)] + tiles_text(
                    b[i as int],
                    j as int,
                ),
        {
            proof {
                reveal_strlit(" ");
            }
            text.append(" ");
            text.append(tile_symbol(tiles[i][j]));
            assert(text@ =~= before + seq![' ', row_name(i as int)] + tiles_text(
                b[i as int],
                j + 1,
            ));
        }
        text.append("\n");
        assert(text@ =~= before + row_text(b, i as int));
        assert(text@ =~= seq![' ', ' '] + col_names_text(3) + seq!['\n'] + rows_text(b, i + 1));
    }
    text.append("\n");
    text
}

} // verus!
