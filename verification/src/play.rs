//! Laws of play: what holds of a game after any sequence of calls for a move,
//! accepted or refused.

use vstd::prelude::*;
use crate::board::{
    has_line, is_full, lemma_with_piece_counts, lemma_with_piece_tiles, occupied, on_board,
};
use crate::game::{GameState, MoveError, Piece, Winner};

verus! {

/// A call for a move: the row and the column asked for.
pub type Move = (usize, usize);

/// The state after the calls in `moves`, made in order from `start`.
pub open spec fn play(start: GameState, moves: Seq<Move>) -> GameState
    decreases moves.len(),
{
    if moves.len() == 0 {
        start
    } else {
        play(start, moves.drop_last()).step(moves.last().0, moves.last().1)
    }
}

/// How many of the calls in `moves`, made in order from `start`, are accepted.
pub open spec fn accepted(start: GameState, moves: Seq<Move>) -> nat
    decreases moves.len(),
{
    if moves.len() == 0 {
        0
    } else {
        let before = play(start, moves.drop_last());
        accepted(start, moves.drop_last()) + if before.accepts(moves.last().0, moves.last().1) {
            1nat
        } else {
            0nat
        }
    }
}

/// Whether play from the start can lead to `s`.
pub open spec fn reachable(s: GameState) -> bool {
    exists|moves: Seq<Move>| play(GameState::init(), moves) == s
}

/// The start is reachable: no call leads to it.
pub proof fn lemma_init_reachable()
    ensures
        reachable(GameState::init()),
{
    assert(play(GameState::init(), Seq::<Move>::empty()) == GameState::init());
}

/// One more call leads from a reachable state to a reachable state.
pub proof fn lemma_step_reachable(s: GameState, row: usize, col: usize)
    requires
        reachable(s),
    ensures
        reachable(s.step(row, col)),
{
    let moves = choose|moves: Seq<Move>| play(GameState::init(), moves) == s;
    let longer = moves.push((row, col));
    assert(longer.drop_last() == moves);
    assert(play(GameState::init(), longer) == s.step(row, col));
}

/// Every state that play reaches from a valid state is valid.
pub proof fn law_play_keeps_valid(start: GameState, moves: Seq<Move>)
    requires
        start.valid(),
    ensures
        play(start, moves).valid(),
    decreases moves.len(),
{
    if moves.len() > 0 {
        law_play_keeps_valid(start, moves.drop_last());
        let before = play(start, moves.drop_last());
        if before.accepts(moves.last().0, moves.last().1) {
            before.lemma_place_valid(moves.last().0, moves.last().1);
        }
    }
}

/// Every reachable state is valid.
pub proof fn law_reachable_is_valid(s: GameState)
    requires
        reachable(s),
    ensures
        s.valid(),
{
    let moves = choose|moves: Seq<Move>| play(GameState::init(), moves) == s;
    GameState::lemma_init_valid();
    law_play_keeps_valid(GameState::init(), moves);
}

/// A game is over exactly when a line is complete or the board is full, and
/// the result says which: a win goes to the one piece that has a line, a tie
/// means a full board on which neither has one.
pub proof fn law_result_matches_board(s: GameState)
    requires
        s.valid(),
    ensures
        s.winner is None <==> !has_line(s.board, Piece::X) && !has_line(s.board, Piece::O)
            && !is_full(s.board),
        s.winner == Some(Winner::X) <==> has_line(s.board, Piece::X),
        s.winner == Some(Winner::O) <==> has_line(s.board, Piece::O),
        s.winner == Some(Winner::Tie) <==> is_full(s.board) && !has_line(s.board, Piece::X)
            && !has_line(s.board, Piece::O),
{
}

/// The number of occupied tiles grows by one with each accepted move and with
/// nothing else.
pub proof fn law_occupied_counts_accepted(start: GameState, moves: Seq<Move>)
    requires
        start.valid(),
    ensures
        occupied(play(start, moves).board) == occupied(start.board) + accepted(start, moves),
    decreases moves.len(),
{
    if moves.len() > 0 {
        law_occupied_counts_accepted(start, moves.drop_last());
        law_play_keeps_valid(start, moves.drop_last());
        let before = play(start, moves.drop_last());
        let (row, col) = moves.last();
        if before.accepts(row, col) {
            lemma_with_piece_counts(before.board, row as int, col as int, before.turn);
        }
    }
}

/// In a game played from the start, the number of occupied tiles equals the
/// number of accepted moves.
pub proof fn law_tiles_match_moves(moves: Seq<Move>)
    ensures
        occupied(play(GameState::init(), moves).board) == accepted(GameState::init(), moves),
{
    GameState::lemma_init_valid();
    law_occupied_counts_accepted(GameState::init(), moves);
}

/// An accepted move places the piece whose turn it is and passes the turn to
/// the other piece; a refused call leaves the turn where it is.
pub proof fn law_move_passes_turn(s: GameState, row: usize, col: usize)
    requires
        s.valid(),
    ensures
        s.accepts(row, col) ==> s.step(row, col).board[row as int][col as int] == Some(s.turn)
            && s.step(row, col).turn == s.turn.other(),
        !s.accepts(row, col) ==> s.step(row, col).turn == s.turn,
{
    if s.accepts(row, col) {
        lemma_with_piece_tiles(s.board, row as int, col as int, s.turn);
    }
}

/// Calls that are all refused leave the game exactly as it was.
pub proof fn law_refused_calls_change_nothing(start: GameState, moves: Seq<Move>)
    requires
        accepted(start, moves) == 0,
    ensures
        play(start, moves) == start,
    decreases moves.len(),
{
    if moves.len() > 0 {
        law_refused_calls_change_nothing(start, moves.drop_last());
    }
}

/// Turns alternate strictly: of two accepted moves with only refused calls
/// between them, the second places the opposite of the piece that the first
/// placed.
pub proof fn law_turns_alternate(s: GameState, first: Move, refused: Seq<Move>, second: Move)
    requires
        s.valid(),
        s.accepts(first.0, first.1),
        accepted(s.step(first.0, first.1), refused) == 0,
        play(s.step(first.0, first.1), refused).accepts(second.0, second.1),
    ensures
        ({
            let after_first = s.step(first.0, first.1);
            let after_second = play(after_first, refused).step(second.0, second.1);
            &&& after_first.board[first.0 as int][first.1 as int] == Some(s.turn)
            &&& after_second.board[second.0 as int][second.1 as int] == Some(s.turn.other())
        }),
{
    let after_first = s.step(first.0, first.1);
    law_move_passes_turn(s, first.0, first.1);
    s.lemma_place_valid(first.0, first.1);
    law_refused_calls_change_nothing(after_first, refused);
    law_move_passes_turn(after_first, second.0, second.1);
}

/// In a game played from the start, `X` is to move exactly when the number of
/// accepted moves is even.
pub proof fn law_turn_follows_parity(moves: Seq<Move>)
    ensures
        (play(GameState::init(), moves).turn == Piece::X) == (accepted(GameState::init(), moves)
            % 2 == 0),
    decreases moves.len(),
{
    if moves.len() > 0 {
        law_turn_follows_parity(moves.drop_last());
    }
}

/// A call for a tile that is taken, in a game that is not over, is refused
/// with the piece that holds the tile, and changes nothing.
pub proof fn law_taken_tile_is_refused(s: GameState, row: usize, col: usize, p: Piece)
    requires
        s.winner is None,
        on_board(row as int, col as int),
        s.board[row as int][col as int] == Some(p),
    ensures
        s.rejection(row, col) == Some(MoveError::TileNotEmpty { other_piece: p, row, col }),
        s.step(row, col) == s,
{
}

/// A call for a position off the board, in a game that is not over, is
/// refused with that position, and changes nothing.
pub proof fn law_off_board_is_refused(s: GameState, row: usize, col: usize)
    requires
        s.winner is None,
        !on_board(row as int, col as int),
    ensures
        s.rejection(row, col) == Some(MoveError::InvalidPosition { row, col }),
        s.step(row, col) == s,
{
}

/// Once a game is over, every further call is refused as such and the game
/// stays as it is, whatever is asked and however often.
pub proof fn law_finished_game_is_frozen(s: GameState, moves: Seq<Move>)
    requires
        s.winner is Some,
    ensures
        play(s, moves) == s,
        accepted(s, moves) == 0,
        forall|row: usize, col: usize|
            #[trigger] play(s, moves).rejection(row, col) == Some(MoveError::GameAlreadyOver),
    decreases moves.len(),
{
    if moves.len() > 0 {
        law_finished_game_is_frozen(s, moves.drop_last());
    }
}

/// The result is written once: a call never changes a result that stands.
pub proof fn law_result_is_written_once(s: GameState, row: usize, col: usize)
    ensures
        s.winner is Some ==> s.step(row, col).winner == s.winner,
{
}

/// No takebacks: a tile that holds a piece holds it after every call, and an
/// accepted move changes the tile it names and no other.
pub proof fn law_tiles_are_kept(s: GameState, row: usize, col: usize)
    requires
        s.valid(),
    ensures
        forall|r: int, c: int|
            on_board(r, c) && (s.board[r][c] is Some || !(r == row && c == col)) ==> #[trigger] s.step(
                row,
                col,
            ).board[r][c] == s.board[r][c],
{
    if s.accepts(row, col) {
        lemma_with_piece_tiles(s.board, row as int, col as int, s.turn);
    }
}

} // verus!
