//! Properties of the game that hold for every state, proved over the model.
use vstd::prelude::*;

use crate::board::{
    anti_diagonal_uniform, column_uniform, columns_winner_from, diagonal_uniform, empty_grid,
    has_uniform_line, is_full, row_uniform, rows_winner, rows_winner_from, winning_shape,
    BOARD_SIZE,
};
use crate::shape::{slot_of_shape, TTTError, TTTShape};
use crate::state::GameState;

verus! {

/// The first uniform row at `y` or below is found exactly when one exists,
/// and its mark is that row's first cell.
proof fn lemma_rows_winner_from(b: Seq<Seq<TTTShape>>, y: int)
    requires
        0 <= y <= BOARD_SIZE,
    ensures
        rows_winner_from(b, y) is Some <==> exists|j: int|
            y <= j < BOARD_SIZE && #[trigger] row_uniform(b, j),
        rows_winner_from(b, y) matches Some(v) ==> exists|j: int|
            y <= j < BOARD_SIZE && #[trigger] row_uniform(b, j) && v == b[j][0],
    decreases BOARD_SIZE - y,
{
    if y < BOARD_SIZE {
        lemma_rows_winner_from(b, y + 1);
        if !row_uniform(b, y) {
            assert forall|j: int| y <= j < BOARD_SIZE && #[trigger] row_uniform(b, j) implies y + 1
                <= j by {}
        }
    }
}

/// The first uniform column at `x` or right of it is found exactly when one
/// exists.
proof fn lemma_columns_winner_from(b: Seq<Seq<TTTShape>>, x: int)
    requires
        0 <= x <= BOARD_SIZE,
    ensures
        columns_winner_from(b, x) is Some <==> exists|j: int|
            x <= j < BOARD_SIZE && #[trigger] column_uniform(b, j),
    decreases BOARD_SIZE - x,
{
    if x < BOARD_SIZE {
        lemma_columns_winner_from(b, x + 1);
        if !column_uniform(b, x) {
            assert forall|j: int| x <= j < BOARD_SIZE && #[trigger] column_uniform(b, j) implies x
                + 1 <= j by {}
        }
    }
}

/// There is a winning mark exactly when some row, column or diagonal holds
/// one player mark throughout: until a line becomes uniform there is no
/// winner.
pub proof fn lemma_winner_iff_uniform_line(b: Seq<Seq<TTTShape>>)
    ensures
        winning_shape(b) is Some <==> has_uniform_line(b),
{
    lemma_rows_winner_from(b, 0);
    lemma_columns_winner_from(b, 0);
}

/// A game with an empty grid has no winner.
pub proof fn lemma_empty_board_no_winner(st: GameState)
    requires
        st.board == empty_grid(),
    ensures
        st.winner() is None,
{
    let b = st.board;
    lemma_winner_iff_uniform_line(b);
    assert(!row_uniform(b, 0) && !row_uniform(b, 1) && !row_uniform(b, 2));
    assert(!column_uniform(b, 0) && !column_uniform(b, 1) && !column_uniform(b, 2));
    assert(!has_uniform_line(b));
}

/// A move on an empty cell within the grid succeeds, puts exactly the current
/// player's mark in that cell, leaves every other cell as it was, and passes
/// the turn.
pub proof fn lemma_move_places_mark(st: GameState, x: int, y: int)
    requires
        st.wf(),
        GameState::in_bounds(x, y),
        st.board[y][x] == TTTShape::Blank,
    ensures
        st.move_outcome(x, y) is Ok,
        st.after_move(x, y).wf(),
        st.after_move(x, y).board[y][x] == st.current().0,
        forall|i: int, j: int|
            GameState::in_bounds(i, j) && (i, j) != (x, y) ==> #[trigger] st.after_move(
                x,
                y,
            ).board[j][i] == st.board[j][i],
        st.after_move(x, y).turn == 1 - st.turn,
        st.after_move(x, y).players == st.players,
        st.after_move(x, y).registered == st.registered,
{
}

/// Once a player holding a mark has moved on a cell, a second move on the same
/// cell is refused as taken and changes nothing.
pub proof fn lemma_move_twice_refused(st: GameState, x: int, y: int)
    requires
        st.wf(),
        GameState::in_bounds(x, y),
        st.board[y][x] == TTTShape::Blank,
        st.current().0 != TTTShape::Blank,
    ensures
        st.after_move(x, y).move_outcome(x, y) == Err::<(), TTTError>(TTTError::ShapeAlreadyPlaced),
        st.after_move(x, y).after_move(x, y) == st.after_move(x, y),
{
}

/// With one player mark across the top row, that mark's player wins, and a
/// registered player of that slot holds that mark.
pub proof fn lemma_row_win(st: GameState, mark: TTTShape)
    requires
        st.wf(),
        mark != TTTShape::Blank,
        st.board[0][0] == mark,
        st.board[0][1] == mark,
        st.board[0][2] == mark,
    ensures
        st.winner() == Some(st.players[slot_of_shape(mark)]),
        st.registered == 2 ==> st.players[slot_of_shape(mark)].0 == mark,
{
    assert(row_uniform(st.board, 0));
}

/// With one player mark down the left column, that mark's player wins, and a
/// registered player of that slot holds that mark.
pub proof fn lemma_column_win(st: GameState, mark: TTTShape)
    requires
        st.wf(),
        mark != TTTShape::Blank,
        st.board[0][0] == mark,
        st.board[1][0] == mark,
        st.board[2][0] == mark,
    ensures
        st.winner() == Some(st.players[slot_of_shape(mark)]),
        st.registered == 2 ==> st.players[slot_of_shape(mark)].0 == mark,
{
    let b = st.board;
    lemma_rows_winner_from(b, 0);
    assert(column_uniform(b, 0));
    if let Some(v) = rows_winner(b) {
        let j = choose|j: int| 0 <= j < BOARD_SIZE && #[trigger] row_uniform(b, j) && v == b[j][0];
        assert(b[j][0] == mark);
    }
}

/// With one player mark along the main diagonal there is a winner.
pub proof fn lemma_diagonal_win(st: GameState, mark: TTTShape)
    requires
        st.wf(),
        mark != TTTShape::Blank,
        st.board[0][0] == mark,
        st.board[1][1] == mark,
        st.board[2][2] == mark,
    ensures
        st.winner() is Some,
{
    assert(diagonal_uniform(st.board));
    lemma_winner_iff_uniform_line(st.board);
}

/// With one player mark along the anti-diagonal there is a winner.
pub proof fn lemma_anti_diagonal_win(st: GameState, mark: TTTShape)
    requires
        st.wf(),
        mark != TTTShape::Blank,
        st.board[0][2] == mark,
        st.board[1][1] == mark,
        st.board[2][0] == mark,
    ensures
        st.winner() is Some,
{
    assert(anti_diagonal_uniform(st.board));
    lemma_winner_iff_uniform_line(st.board);
}

/// A full grid with no uniform line is a tie: complete, and nobody wins.
pub proof fn lemma_tie(st: GameState)
    requires
        st.wf(),
        is_full(st.board),
        !has_uniform_line(st.board),
    ensures
        st.complete(),
        st.winner() is None,
{
    lemma_winner_iff_uniform_line(st.board);
}

/// Resetting the game empties the grid and gives the turn to the first slot,
/// while every player keeps its name and mark; the new game has no winner.
pub proof fn lemma_reset_game(st: GameState)
    requires
        st.wf(),
    ensures
        st.after_reset_game().wf(),
        st.after_reset_game().board == empty_grid(),
        st.after_reset_game().turn == 0,
        st.after_reset_game().players == st.players,
        st.after_reset_game().registered == st.registered,
        st.after_reset_game().winner() is None,
{
    lemma_empty_board_no_winner(st.after_reset_game());
}

/// After the registry is reset, two registrations succeed again: the first
/// gets the first mark, the second the second mark.
pub proof fn lemma_reset_players_fresh(st: GameState, first: Seq<char>, second: Seq<char>)
    requires
        st.wf(),
    ensures
        st.after_reset_players().wf(),
        st.after_reset_players().register_outcome() is Ok,
        st.after_reset_players().after_register(first).register_outcome() is Ok,
        st.after_reset_players().after_register(first).after_register(second).players
            == seq![(TTTShape::X, first), (TTTShape::O, second)],
        st.after_reset_players().after_register(first).after_register(second).wf(),
{
    let t = st.after_reset_players().after_register(first).after_register(second);
    assert(t.players =~= seq![(TTTShape::X, first), (TTTShape::O, second)]);
}

/// Once both slots are taken, registering again is refused and changes
/// nothing.
pub proof fn lemma_third_registration_refused(st: GameState, name: Seq<char>)
    requires
        st.wf(),
        st.registered == 2,
    ensures
        st.register_outcome() == Err::<(), TTTError>(TTTError::RegistrationFull),
        st.after_register(name) == st,
{
}

/// Every operation keeps the session's invariant.
pub proof fn lemma_operations_keep_invariant(st: GameState, x: int, y: int, name: Seq<char>)
    requires
        st.wf(),
    ensures
        st.after_move(x, y).wf(),
        st.after_register(name).wf(),
        st.after_reset_game().wf(),
        st.after_reset_players().wf(),
{
}

} // verus!
