//! The game engine: the registry, the turn pointer and the grid.
use vstd::prelude::*;

use crate::board::{
    anti_diagonal_winner, board_text, cells_text, column_uniform, columns_winner,
    columns_winner_from, diagonal_all, diagonal_row, diagonal_winner, digit_char, empty_grid,
    header_text, is_full, row_text, row_uniform, rows_text, rows_winner, rows_winner_from,
    winning_shape, BOARD_SIZE,
};
use crate::player::{default_player, Player};
use crate::shape::{shape_text, slot_of_shape, TTTError, TTTShape};
use crate::state::GameState;

verus! {

/// A game session between two players on a 3x3 grid.
pub struct TTTEngine {
    added_player_index: u8,
    current_player_turn: u8,
    players: [Player; 2],
    board: Vec<Vec<TTTShape>>,
}

impl View for TTTEngine {
    type V = GameState;

    closed spec fn view(&self) -> GameState {
        GameState {
            registered: self.added_player_index as int,
            turn: self.current_player_turn as int,
            players: self.players@.map_values(|p: Player| p@),
            board: self.board@.map_values(|row: Vec<TTTShape>| row@),
        }
    }
}

/// A grid with every cell empty.
fn empty_board() -> (r: Vec<Vec<TTTShape>>)
    ensures
        r@.map_values(|row: Vec<TTTShape>| row@) == empty_grid(),
{
    let mut board: Vec<Vec<TTTShape>> = Vec::new();
    let mut y: usize = 0;
    while y < BOARD_SIZE
        invariant
            y <= BOARD_SIZE,
            board@.len() == y,
            forall|j: int| 0 <= j < y ==> (#[trigger] board@[j])@ == empty_grid()[j],
        decreases BOARD_SIZE - y,
    {
        let mut row: Vec<TTTShape> = Vec::new();
        let mut x: usize = 0;
        while x < BOARD_SIZE
            invariant
                x <= BOARD_SIZE,
                row@ == Seq::new(x as nat, |i: int| TTTShape::Blank),
            decreases BOARD_SIZE - x,
        {
            row.push(TTTShape::Blank);
            x += 1;
        }
        board.push(row);
        y += 1;
    }
    assert(board@.map_values(|row: Vec<TTTShape>| row@) =~= empty_grid());
    board
}

/// The index of row `y` as text, followed by a newline.
fn row_label(y: usize) -> (r: &'static str)
    requires
        y < BOARD_SIZE,
    ensures
        r@ == seq![digit_char(y as int), '\n'],
{
    if y == 0 {
        proof {
            reveal_strlit("0\n");
        }
        "0\n"
    } else if y == 1 {
        proof {
            reveal_strlit("1\n");
        }
        "1\n"
    } else {
        proof {
            reveal_strlit("2\n");
        }
        "2\n"
    }
}

impl TTTEngine {
    /// A session with nobody registered, the first slot to move, and an
    /// empty grid.
    pub fn new() -> (r: Self)
        ensures
            r@ == GameState::initial(),
            r@.wf(),
    {
        let r = TTTEngine {
            current_player_turn: 0,
            added_player_index: 0,
            players: [Player::default(), Player::default()],
            board: empty_board(),
        };
        assert(r@.players =~= seq![default_player(), default_player()]);
        r
    }

    /// The player whose turn it is.
    pub fn get_current_player(&self) -> (r: &Player)
        requires
            self@.wf(),
        ensures
            r@ == self@.current(),
    {
        &self.players[self.current_player_turn as usize]
    }

    /// Places the current player's mark at column `x`, row `y`, and passes
    /// the turn. Fails, changing nothing, when either coordinate is off the
    /// grid or the cell is taken. Does not look for a winner.
    pub fn next_turn(&mut self, x: usize, y: usize) -> (r: Result<(), TTTError>)
        requires
            old(self)@.wf(),
        ensures
            final(self)@.wf(),
            r == old(self)@.move_outcome(x as int, y as int),
            final(self)@ == old(self)@.after_move(x as int, y as int),
    {
        if x >= BOARD_SIZE || y >= BOARD_SIZE {
            return Err(TTTError::IndexOutOfRange);
        }
        if self.board[y][x] != TTTShape::Blank {
            return Err(TTTError::ShapeAlreadyPlaced);
        }
        let shape = *self.get_current_player().shape();
        let ghost before = self@;
        self.board[y][x] = shape;
        self.current_player_turn = if self.current_player_turn == 1 {
            0
        } else {
            1
        };
        assert(self@.board =~= before.after_move(x as int, y as int).board);
        assert(self@.players =~= before.players);
        Ok(())
    }

    /// Registers a player named `name` in the next free slot, bound to that
    /// slot's mark (X first, then O). Fails, changing nothing, when both slots
    /// are taken.
    pub fn add_player(&mut self, name: &str) -> (r: Result<(), TTTError>)
        requires
            old(self)@.wf(),
        ensures
            final(self)@.wf(),
            r == old(self)@.register_outcome(),
            final(self)@ == old(self)@.after_register(name@),
    {
        if self.added_player_index < 2 {
            let shape = if self.added_player_index == 0 {
                TTTShape::X
            } else {
                TTTShape::O
            };
            let ghost before = self@;
            self.players[self.added_player_index as usize] = Player::new(shape, name);
            self.added_player_index += 1;
            assert(self@.players =~= before.after_register(name@).players);
            Ok(())
        } else {
            Err(TTTError::RegistrationFull)
        }
    }
    /// The player slots, in registration order.
    pub fn get_players(&self) -> (r: &[Player])
        requires
            self@.wf(),
        ensures
            r@.len() == 2,
            r@.map_values(|p: Player| p@) == self@.players,
    {
        self.players.as_slice()
    }

    /// Clears the grid and gives the turn to the first slot; the players stay.
    pub fn reset_game(&mut self)
        requires
            old(self)@.wf(),
        ensures
            final(self)@.wf(),
            final(self)@ == old(self)@.after_reset_game(),
    {
        self.board = empty_board();
        self.current_player_turn = 0;
    }

    /// Empties both player slots so that two players can register anew; the
    /// grid and the turn stay.
    pub fn reset_players(&mut self)
        requires
            old(self)@.wf(),
        ensures
            final(self)@.wf(),
            final(self)@ == old(self)@.after_reset_players(),
    {
        self.players = [Player::default(), Player::default()];
        self.added_player_index = 0;
        assert(self@.players =~= seq![default_player(), default_player()]);
    }

    /// The grid, row by row; cell (x, y) is `get_board()[y][x]`.
    pub fn get_board(&self) -> (r: &Vec<Vec<TTTShape>>)
        requires
            self@.wf(),
        ensures
            r@.map_values(|row: Vec<TTTShape>| row@) == self@.board,
    {
        &self.board
    }

    /// The grid as text: a header of column indices, then each row as
    /// `|a|b|c|` followed by its index, each line ending in a newline.
    pub fn board_to_string(&self) -> (r: String)
        requires
            self@.wf(),
        ensures
            r@ == board_text(self@.board),
    {
        proof {
            reveal_strlit(" 0|1|2 \n");
        }
        let mut output = String::from_str(" 0|1|2 \n");
        assert(output@ =~= header_text());
        let mut y: usize = 0;
        while y < self.board.len()
            invariant
                self@.wf(),
                y <= BOARD_SIZE,
                output@ == header_text() + rows_text(self@.board, y as int),
            decreases BOARD_SIZE - y,
        {
            let row = &self.board[y];
            assert(row@ == self@.board[y as int]);
            proof {
                reveal_strlit("|");
            }
            let mut line = String::from_str("|");
            let mut x: usize = 0;
            assert(line@ =~= seq!['|'] + cells_text(row@, 0));
            while x < row.len()
                invariant
                    x <= row@.len(),
                    line@ == seq!['|'] + cells_text(row@, x as int),
                decreases row@.len() - x,
            {
                line.append(row[x].as_str());
                line.append("|");
                proof {
                    reveal_strlit("|");
                }
                assert(cells_text(row@, x + 1) == cells_text(row@, x as int) + shape_text(row@[x as int])
                    + seq!['|']);
                assert(line@ =~= seq!['|'] + cells_text(row@, x + 1));
                x += 1;
            }
            line.append(row_label(y));
            assert(line@ =~= row_text(row@, y as int));
            output.append(line.as_str());
            assert(output@ =~= header_text() + rows_text(self@.board, y + 1));
            y += 1;
        }
        output
    }

    /// Every cell holds a player mark (a full grid, won or tied).
    pub fn complete(&self) -> (r: bool)
        requires
            self@.wf(),
        ensures
            r == self@.complete(),
            r == is_full(self@.board),
    {
        let mut y: usize = 0;
        while y < self.board.len()
            invariant
                self@.wf(),
                y <= BOARD_SIZE,
                forall|i: int, j: int|
                    0 <= i < BOARD_SIZE && 0 <= j < y ==> #[trigger] self@.board[j][i]
                        != TTTShape::Blank,
            decreases BOARD_SIZE - y,
        {
            let row = &self.board[y];
            assert(row@ == self@.board[y as int]);
            let mut x: usize = 0;
            while x < row.len()
                invariant
                    self@.wf(),
                    y < BOARD_SIZE,
                    row@ == self@.board[y as int],
                    x <= BOARD_SIZE,
                    forall|i: int, j: int|
                        0 <= i < BOARD_SIZE && 0 <= j < y ==> #[trigger] self@.board[j][i]
                            != TTTShape::Blank,
                    forall|i: int| 0 <= i < x ==> #[trigger] self@.board[y as int][i] != TTTShape::Blank,
                decreases BOARD_SIZE - x,
            {
                if row[x] == TTTShape::Blank {
                    return false;
                }
                x += 1;
            }
            y += 1;
        }
        true
    }

    /// Every cell of the chosen diagonal holds `target`: the main diagonal
    /// takes column `i` of row `i`, the anti-diagonal column `i` of row
    /// `2 - i`.
    fn eq_diagonal(&self, target: TTTShape, anti: bool) -> (r: bool)
        requires
            self@.wf(),
        ensures
            r == diagonal_all(self@.board, target, anti),
    {
        let mut i: usize = 0;
        while i < BOARD_SIZE
            invariant
                self@.wf(),
                i <= BOARD_SIZE,
                forall|j: int| 0 <= j < i ==> #[trigger] self@.board[diagonal_row(j, anti)][j] == target,
            decreases BOARD_SIZE - i,
        {
            let row = if anti {
                BOARD_SIZE - 1 - i
            } else {
                i
            };
            if self.board[row][i] != target {
                assert(self@.board[diagonal_row(i as int, anti)][i as int] != target);
                return false;
            }
            i += 1;
        }
        true
    }

    /// The player bound to a player mark.
    fn get_player_from_shape(&self, shape: &TTTShape) -> (r: &Player)
        requires
            self@.wf(),
            *shape != TTTShape::Blank,
        ensures
            r@ == self@.players[slot_of_shape(*shape)],
    {
        &self.players[shape.slot()]
    }

    /// The mark of the topmost row whose cells all hold one player mark.
    fn check_rows(&self) -> (r: Option<TTTShape>)
        requires
            self@.wf(),
        ensures
            r == rows_winner(self@.board),
    {
        let mut y: usize = 0;
        while y < self.board.len()
            invariant
                self@.wf(),
                y <= BOARD_SIZE,
                rows_winner(self@.board) == rows_winner_from(self@.board, y as int),
            decreases BOARD_SIZE - y,
        {
            let row = &self.board[y];
            let temp = row[0];
            let mut uniform = temp != TTTShape::Blank;
            let mut x: usize = 0;
            while x < row.len() && uniform
                invariant
                    self@.wf(),
                    y < BOARD_SIZE,
                    *row == self.board@[y as int],
                    temp == self@.board[y as int][0],
                    x <= BOARD_SIZE,
                    uniform ==> temp != TTTShape::Blank,
                    uniform ==> forall|j: int| 0 <= j < x ==> #[trigger] self@.board[y as int][j] == temp,
                    !uniform ==> !row_uniform(self@.board, y as int),
                decreases BOARD_SIZE - x,
            {
                if row[x] != temp {
                    uniform = false;
                }
                x += 1;
            }
            if uniform {
                return Some(temp);
            }
            y += 1;
        }
        None
    }

    /// The mark of the leftmost column whose cells all hold one player mark.
    fn check_columns(&self) -> (r: Option<TTTShape>)
        requires
            self@.wf(),
        ensures
            r == columns_winner(self@.board),
    {
        let board_len = self.board.len();
        let mut x: usize = 0;
        while x < board_len
            invariant
                self@.wf(),
                board_len == BOARD_SIZE,
                x <= BOARD_SIZE,
                columns_winner(self@.board) == columns_winner_from(self@.board, x as int),
            decreases BOARD_SIZE - x,
        {
            let temp = self.board[0][x];
            let mut uniform = temp != TTTShape::Blank;
            let mut y: usize = 0;
            while y < board_len && uniform
                invariant
                    self@.wf(),
                    board_len == BOARD_SIZE,
                    x < BOARD_SIZE,
                    temp == self@.board[0][x as int],
                    y <= BOARD_SIZE,
                    uniform ==> temp != TTTShape::Blank,
                    uniform ==> forall|j: int| 0 <= j < y ==> #[trigger] self@.board[j][x as int] == temp,
                    !uniform ==> !column_uniform(self@.board, x as int),
                decreases BOARD_SIZE - y,
            {
                assert(self@.board[y as int] == self.board@[y as int]@);
                if self.board[y][x] != temp {
                    uniform = false;
                }
                y += 1;
            }
            if uniform {
                return Some(temp);
            }
            x += 1;
        }
        None
    }

    /// The mark of the main diagonal, when the top-left cell holds a player
    /// mark that the whole diagonal shares.
    fn check_diagonal(&self) -> (r: Option<TTTShape>)
        requires
            self@.wf(),
        ensures
            r == diagonal_winner(self@.board),
    {
        let temp = self.board[0][0];
        if temp != TTTShape::Blank && self.eq_diagonal(temp, false) {
            Some(temp)
        } else {
            None
        }
    }

    /// The mark of the anti-diagonal, when the top-right cell holds a player
    /// mark that the whole anti-diagonal shares.
    fn check_diagonal_rev(&self) -> (r: Option<TTTShape>)
        requires
            self@.wf(),
        ensures
            r == anti_diagonal_winner(self@.board),
    {
        let temp = self.board[0][BOARD_SIZE - 1];
        if temp != TTTShape::Blank && self.eq_diagonal(temp, true) {
            Some(temp)
        } else {
            None
        }
    }

    /// The winner: the player bound to the mark of the first uniform line,
    /// looking at rows, then columns, the main diagonal and the anti-diagonal.
    /// None when no line holds one player mark throughout.
    pub fn check_winner(&self) -> (r: Option<&Player>)
        requires
            self@.wf(),
        ensures
            r is None <==> self@.winner() is None,
            r matches Some(p) ==> self@.winner() == Some(p@),
    {
        let winner = match self.check_rows() {
            Some(s) => Some(s),
            None => match self.check_columns() {
                Some(s) => Some(s),
                None => match self.check_diagonal() {
                    Some(s) => Some(s),
                    None => self.check_diagonal_rev(),
                },
            },
        };
        proof {
            lemma_winning_shape_is_mark(self@.board);
        }
        match winner {
            Some(s) => Some(self.get_player_from_shape(&s)),
            None => None,
        }
    }
}

/// A winning mark is always a player mark.
proof fn lemma_winning_shape_is_mark(b: Seq<Seq<TTTShape>>)
    ensures
        winning_shape(b) != Some(TTTShape::Blank),
{
    lemma_rows_winner_is_mark(b, 0);
    lemma_columns_winner_is_mark(b, 0);
}

proof fn lemma_rows_winner_is_mark(b: Seq<Seq<TTTShape>>, y: int)
    ensures
        rows_winner_from(b, y) != Some(TTTShape::Blank),
    decreases BOARD_SIZE - y,
{
    if 0 <= y < BOARD_SIZE && !row_uniform(b, y) {
        lemma_rows_winner_is_mark(b, y + 1);
    }
}

proof fn lemma_columns_winner_is_mark(b: Seq<Seq<TTTShape>>, x: int)
    ensures
        columns_winner_from(b, x) != Some(TTTShape::Blank),
    decreases BOARD_SIZE - x,
{
    if 0 <= x < BOARD_SIZE && !column_uniform(b, x) {
        lemma_columns_winner_is_mark(b, x + 1);
    }
}

} // verus!
