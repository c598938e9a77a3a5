//! The tic-tac-toe engine: pieces, the board, and the game that owns them.

use vstd::prelude::*;
use crate::board::{
    board_of, empty_board, has_line, is_full, lemma_new_lines_pass_through,
    lemma_with_piece_counts, line_winner, marks, on_board, verdict, well_shaped, with_piece,
    Board,
};
use crate::play::{lemma_init_reachable, lemma_step_reachable, reachable};

verus! {

/// Rows and columns of the board.
pub const BOARD_SIZE: usize = 3;

/// A player's mark. `X` moves first.
#[derive(Debug, Clone, Copy, PartialEq, Eq, Hash, Structural)]
pub enum Piece {
    X,
    O,
}

impl Piece {
    /// The opposing piece, for use in contracts.
    pub open spec fn spec_other(self) -> Piece {
        match self {
            Piece::X => Piece::O,
            Piece::O => Piece::X,
        }
    }

    /// The opposing piece.
    #[verifier::when_used_as_spec(spec_other)]
    pub fn other(self) -> (p: Piece)
        ensures
            p == self.spec_other(),
    {
        match self {
            Piece::X => Piece::O,
            Piece::O => Piece::X,
        }
    }
}

/// One cell of the board: empty, or holding a piece.
pub type Tile = Option<Piece>;

/// The board, row by row.
pub type Tiles = [[Tile; BOARD_SIZE]; BOARD_SIZE];

/// How a finished game ended.
#[derive(Debug, Clone, Copy, PartialEq, Eq, Hash, Structural)]
pub enum Winner {
    X,
    O,
    Tie,
}

/// Why a move was refused.
#[derive(Debug, Clone, Copy, PartialEq, Eq, Structural)]
pub enum MoveError {
    /// The game already has a winner or is tied.
    GameAlreadyOver,
    /// `row` or `col` does not name a tile of the board.
    InvalidPosition { row: usize, col: usize },
    /// The tile at `row`, `col` already holds `other_piece`.
    TileNotEmpty { other_piece: Piece, row: usize, col: usize },
}

/// The state of a game as the rules see it.
pub struct GameState {
    /// What each tile holds.
    pub board: Board,
    /// The piece that the next move places.
    pub turn: Piece,
    /// How the game ended, once it has.
    pub winner: Option<Winner>,
}

impl GameState {
    /// The state that every game starts from: an empty board, `X` to move.
    pub open spec fn init() -> GameState {
        GameState { board: empty_board(), turn: Piece::X, winner: None }
    }

    /// Why a move to `row`, `col` is refused, if it is. The first reason that
    /// applies is the one given: a finished game, then a position off the
    /// board, then a tile that is taken.
    pub open spec fn rejection(self, row: usize, col: usize) -> Option<MoveError> {
        if self.winner is Some {
            Some(MoveError::GameAlreadyOver)
        } else if row >= 3 || col >= 3 {
            Some(MoveError::InvalidPosition { row, col })
        } else {
            match self.board[row as int][col as int] {
                Some(other_piece) => Some(MoveError::TileNotEmpty { other_piece, row, col }),
                None => None,
            }
        }
    }

    /// A move to `row`, `col` is taken.
    pub open spec fn accepts(self, row: usize, col: usize) -> bool {
        self.rejection(row, col) is None
    }

    /// The state with the result written down, if the tile at `row`, `col`
    /// decides the game and no result stands yet. A result that stands is kept.
    pub open spec fn settle(self, row: usize, col: usize) -> GameState {
        GameState {
            winner: match self.winner {
                Some(w) => Some(w),
                None => verdict(self.board, row as int, col as int),
            },
            ..self
        }
    }

    /// The state after the piece to move has been placed at `row`, `col`: the
    /// tile holds it, the turn passes to the other piece, and the result is
    /// settled.
    pub open spec fn place(self, row: usize, col: usize) -> GameState {
        GameState {
            board: with_piece(self.board, row as int, col as int, self.turn),
            turn: self.turn.other(),
            winner: self.winner,
        }.settle(row, col)
    }

    /// The state after a call for a move to `row`, `col`: the move is made if
    /// it is accepted, and nothing changes if it is refused.
    pub open spec fn step(self, row: usize, col: usize) -> GameState {
        if self.accepts(row, col) {
            self.place(row, col)
        } else {
            self
        }
    }

    /// What holds of every state that play can reach. `X` moved first and the
    /// pieces took turns; the game is open exactly as long as no line is
    /// complete and a tile is free; a win names a piece that has a line while
    /// the other has none; a tie means a full board without a line.
    pub open spec fn valid(self) -> bool {
        &&& well_shaped(self.board)
        &&& marks(self.board, Piece::X) == marks(self.board, Piece::O) + if self.turn
            == Piece::O {
            1nat
        } else {
            0nat
        }
        &&& match self.winner {
            None => !has_line(self.board, Piece::X) && !has_line(self.board, Piece::O)
                && !is_full(self.board),
            Some(Winner::X) => has_line(self.board, Piece::X) && !has_line(
                self.board,
                Piece::O,
            ) && self.turn == Piece::O,
            Some(Winner::O) => has_line(self.board, Piece::O) && !has_line(
                self.board,
                Piece::X,
            ) && self.turn == Piece::X,
            Some(Winner::Tie) => is_full(self.board) && !has_line(self.board, Piece::X)
                && !has_line(self.board, Piece::O),
        }
    }

    /// The starting state is valid.
    pub proof fn lemma_init_valid()
        ensures
            Self::init().valid(),
    {
        assert(!is_full(empty_board())) by {
            assert(empty_board()[0][0] is None);
        }
    }

    /// An accepted move leads from a valid state to a valid state.
    pub proof fn lemma_place_valid(self, row: usize, col: usize)
        requires
            self.valid(),
            self.accepts(row, col),
        ensures
            self.place(row, col).valid(),
    {
        lemma_with_piece_counts(self.board, row as int, col as int, self.turn);
        lemma_new_lines_pass_through(self.board, row as int, col as int, self.turn);
    }
}

/// The winner that one line of three tiles shows, if it shows one.
fn check_winner(line: &[Tile; 3]) -> (w: Option<Winner>)
    ensures
        w == line_winner(line@),
{
    if line[0] == line[1] && line[1] == line[2] {
        match line[0] {
            Some(Piece::X) => Some(Winner::X),
            Some(Piece::O) => Some(Winner::O),
            None => None,
        }
    } else {
        None
    }
}

/// Whether every tile holds a piece.
fn all_taken(tiles: &Tiles) -> (b: bool)
    ensures
        b == is_full(board_of(*tiles)),
{
    for row in 0..BOARD_SIZE
        invariant
            forall|r: int, c: int| 0 <= r < row && 0 <= c < 3 ==> tiles[r][c] is Some,
    {
        for col in 0..BOARD_SIZE
            invariant
                row < 3,
                forall|r: int, c: int| 0 <= r < row && 0 <= c < 3 ==> tiles[r][c] is Some,
                forall|c: int| 0 <= c < col ==> tiles[row as int][c] is Some,
        {
            if tiles[row][col].is_none() {
                assert(board_of(*tiles)[row as int][col as int] is None);
                return false;
            }
        }
    }
    assert forall|r: int, c: int| on_board(r, c) implies (#[trigger] board_of(*tiles)[r][c]) is Some by {
        assert(tiles[r][c] is Some);
    }
    true
}

/// A game of tic-tac-toe: the board, the piece to move, and the result once
/// there is one. A game starts with `new` and changes through `make_move`
/// alone, so its state is always one that play can reach.
#[derive(Debug)]
pub struct Game {
    tiles: Tiles,
    current_piece: Piece,
    winner: Option<Winner>,
}

impl View for Game {
    type V = GameState;

    closed spec fn view(&self) -> GameState {
        GameState {
            board: board_of(self.tiles),
            turn: self.current_piece,
            winner: self.winner,
        }
    }
}

impl Clone for Game {
    fn clone(&self) -> (g: Game)
        ensures
            g == *self,
    {
        proof {
            use_type_invariant(self);
        }
        Game { tiles: self.tiles, current_piece: self.current_piece, winner: self.winner }
    }
}

impl Game {
    /// Every game that exists is in a state that play from the start leads
    /// to.
    #[verifier::type_invariant]
    spec fn reached_by_play(self) -> bool {
        reachable(self@)
    }

    /// A new game: an empty board, `X` to move, no result.
    pub fn new() -> (g: Game)
        ensures
            g@ == GameState::init(),
            reachable(g@),
    {
        proof {
            lemma_init_reachable();
        }
        let tiles: Tiles = [[None, None, None], [None, None, None], [None, None, None]];
        assert(board_of(tiles) =~~= empty_board());
        Game { tiles, current_piece: Piece::X, winner: None }
    }

    /// Places the piece to move at `row`, `col`, passes the turn and settles
    /// the result. A move is refused, and the game left as it was, when the
    /// game is over, when the position is off the board, or when the tile is
    /// taken: in that order.
    pub fn make_move(&mut self, row: usize, col: usize) -> (r: Result<(), MoveError>)
        ensures
            match old(self)@.rejection(row, col) {
                Some(e) => r == Err::<(), MoveError>(e) && *final(self) == *old(self),
                None => r == Ok::<(), MoveError>(()) && final(self)@ == old(self)@.place(
                    row,
                    col,
                ),
            },
            final(self)@ == old(self)@.step(row, col),
            reachable(final(self)@),
    {
        proof {
            use_type_invariant(&*self);
        }
        // A finished game takes no move.
        if self.is_finished() {
            return Err(MoveError::GameAlreadyOver);
        }
        // The tile has to be on the board,
        if row >= self.tiles.len() || col >= self.tiles[0].len() {
            return Err(MoveError::InvalidPosition { row, col });
        }
        // and free.
        if let Some(other_piece) = self.tiles[row][col] {
            return Err(MoveError::TileNotEmpty { other_piece, row, col });
        }
        // The new state is put together first and written in one piece, so
        // that the game is never seen half-way through a move.
        let mut tiles = self.tiles;
        tiles[row][col] = Some(self.current_piece);
        let winner = Self::update_winner(&tiles, self.winner, row, col);
        proof {
            lemma_step_reachable(self@, row, col);
            assert(board_of(tiles) =~~= with_piece(
                self@.board,
                row as int,
                col as int,
                self.current_piece,
            ));
        }
        *self = Game { tiles, current_piece: self.current_piece.other(), winner };
        Ok(())
    }

    /// The result after the tile at `row`, `col` has been filled: a result
    /// that stands is kept; else a complete line through the tile wins for the
    /// piece that holds it; else a full board is a tie.
    fn update_winner(tiles: &Tiles, winner: Option<Winner>, row: usize, col: usize) -> (w: Option<
        Winner,
    >)
        requires
            row < 3,
            col < 3,
        ensures
            w == match winner {
                Some(standing) => Some(standing),
                None => verdict(board_of(*tiles), row as int, col as int),
            },
    {
        // Only the lines through the new tile can have become complete.
        let tiles_row = tiles[row];
        let tiles_col = [tiles[0][col], tiles[1][col], tiles[2][col]];

        // The diagonal from the top left, where the tile lies on it
        let tiles_diagonal_1 = if row == col {
            [tiles[0][0], tiles[1][1], tiles[2][2]]
        } else {
            [None, None, None]
        };

        // The diagonal from the top right, where the tile lies on it
        let tiles_diagonal_2 = if (BOARD_SIZE - row - 1) == col {
            [tiles[0][2], tiles[1][1], tiles[2][0]]
        } else {
            [None, None, None]
        };

        // The first complete line decides; a result that stands is not
        // written over.
        let mut result = winner;
        if result.is_none() {
            result = check_winner(&tiles_row);
        }
        if result.is_none() {
            result = check_winner(&tiles_col);
        }
        if result.is_none() {
            result = check_winner(&tiles_diagonal_1);
        }
        if result.is_none() {
            result = check_winner(&tiles_diagonal_2);
        }
        // Without a winner, a board with no free tile is a tie.
        if result.is_none() && all_taken(tiles) {
            result = Some(Winner::Tie);
        }
        result
    }

    /// Whether the game has ended.
    pub fn is_finished(&self) -> (b: bool)
        ensures
            b == (self@.winner is Some),
    {
        self.winner.is_some()
    }

    /// How the game ended, if it has.
    pub fn winner(&self) -> (w: Option<Winner>)
        ensures
            w == self@.winner,
            reachable(self@),
    {
        proof {
            use_type_invariant(self);
        }
        self.winner
    }

    /// The piece that the next move places.
    pub fn current_piece(&self) -> (p: Piece)
        ensures
            p == self@.turn,
            reachable(self@),
    {
        proof {
            use_type_invariant(self);
        }
        self.current_piece
    }

    /// The tiles of the board, row by row.
    pub fn tiles(&self) -> (t: &Tiles)
        ensures
            board_of(*t) == self@.board,
            reachable(self@),
    {
        proof {
            use_type_invariant(self);
        }
        &self.tiles
    }
}

} // verus!
