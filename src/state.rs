//! The abstract state of a game session and how each operation changes it.
use vstd::prelude::*;

use crate::board::{empty_grid, is_full, well_shaped, winning_shape, BOARD_SIZE};
use crate::player::default_player;
use crate::shape::{shape_of_slot, slot_of_shape, TTTError, TTTShape};

verus! {

/// A session as a mathematical value.
pub struct GameState {
    /// How many players have registered (0, 1 or 2).
    pub registered: int,
    /// The slot of the player whose turn it is (0 or 1).
    pub turn: int,
    /// The two player slots, each a mark and a name.
    pub players: Seq<(TTTShape, Seq<char>)>,
    /// The grid, row by row.
    pub board: Seq<Seq<TTTShape>>,
}

impl GameState {
    /// The invariant of every session: counters in range, registered slots
    /// bound to their marks, unset slots empty, and a 3x3 grid.
    pub open spec fn wf(self) -> bool {
        &&& 0 <= self.registered <= 2
        &&& 0 <= self.turn <= 1
        &&& self.players.len() == 2
        &&& forall|i: int|
            0 <= i < 2 ==> if i < self.registered {
                (#[trigger] self.players[i]).0 == shape_of_slot(i)
            } else {
                self.players[i] == default_player()
            }
        &&& well_shaped(self.board)
    }

    /// A new session: nobody registered, first slot's turn, empty grid.
    pub open spec fn initial() -> GameState {
        GameState {
            registered: 0,
            turn: 0,
            players: seq![default_player(), default_player()],
            board: empty_grid(),
        }
    }

    /// The player whose turn it is.
    pub open spec fn current(self) -> (TTTShape, Seq<char>) {
        self.players[self.turn]
    }

    /// The coordinates name a cell of the grid.
    pub open spec fn in_bounds(x: int, y: int) -> bool {
        0 <= x < BOARD_SIZE && 0 <= y < BOARD_SIZE
    }

    /// What a move at column `x`, row `y` answers.
    pub open spec fn move_outcome(self, x: int, y: int) -> Result<(), TTTError> {
        if !Self::in_bounds(x, y) {
            Err(TTTError::IndexOutOfRange)
        } else if self.board[y][x] != TTTShape::Blank {
            Err(TTTError::ShapeAlreadyPlaced)
        } else {
            Ok(())
        }
    }

    /// The state after a move at column `x`, row `y`: on success the current
    /// player's mark fills the cell and the turn passes; else nothing changes.
    pub open spec fn after_move(self, x: int, y: int) -> GameState {
        if self.move_outcome(x, y) is Ok {
            GameState {
                turn: 1 - self.turn,
                board: self.board.update(y, self.board[y].update(x, self.current().0)),
                ..self
            }
        } else {
            self
        }
    }

    /// What a registration answers.
    pub open spec fn register_outcome(self) -> Result<(), TTTError> {
        if self.registered < 2 {
            Ok(())
        } else {
            Err(TTTError::RegistrationFull)
        }
    }

    /// The state after registering `name`: on success it fills the next slot,
    /// bound to that slot's mark; else nothing changes.
    pub open spec fn after_register(self, name: Seq<char>) -> GameState {
        if self.register_outcome() is Ok {
            GameState {
                registered: self.registered + 1,
                players: self.players.update(
                    self.registered,
                    (shape_of_slot(self.registered), name),
                ),
                ..self
            }
        } else {
            self
        }
    }

    /// The state after clearing the grid: players kept, first slot's turn.
    pub open spec fn after_reset_game(self) -> GameState {
        GameState { turn: 0, board: empty_grid(), ..self }
    }

    /// The state after clearing the registry: grid and turn kept.
    pub open spec fn after_reset_players(self) -> GameState {
        GameState {
            registered: 0,
            players: seq![default_player(), default_player()],
            ..self
        }
    }

    /// Every cell is filled.
    pub open spec fn complete(self) -> bool {
        is_full(self.board)
    }

    /// The player in the slot of the winning mark, if a line is uniform.
    pub open spec fn winner(self) -> Option<(TTTShape, Seq<char>)> {
        match winning_shape(self.board) {
            Some(s) => Some(self.players[slot_of_shape(s)]),
            None => None,
        }
    }
}

} // verus!
