//! The mathematical model of the grid: cells, lines, the winner, and the
//! rendered text. A grid is a sequence of rows; cell (x, y) is `b[y][x]`.
use vstd::prelude::*;

use crate::shape::{shape_text, TTTShape};

verus! {

/// Number of rows, and of cells in each row.
pub const BOARD_SIZE: usize = 3;

/// The grid has `BOARD_SIZE` rows of `BOARD_SIZE` cells each.
pub open spec fn well_shaped(b: Seq<Seq<TTTShape>>) -> bool {
    &&& b.len() == BOARD_SIZE
    &&& forall|y: int| 0 <= y < BOARD_SIZE ==> (#[trigger] b[y]).len() == BOARD_SIZE
}

/// The grid with every cell empty.
pub open spec fn empty_grid() -> Seq<Seq<TTTShape>> {
    Seq::new(BOARD_SIZE as nat, |y: int| Seq::new(BOARD_SIZE as nat, |x: int| TTTShape::Blank))
}

/// Every cell holds a player's mark.
pub open spec fn is_full(b: Seq<Seq<TTTShape>>) -> bool {
    forall|x: int, y: int|
        0 <= x < BOARD_SIZE && 0 <= y < BOARD_SIZE ==> #[trigger] b[y][x] != TTTShape::Blank
}

/// Row `y` holds one player mark in all its cells.
pub open spec fn row_uniform(b: Seq<Seq<TTTShape>>, y: int) -> bool {
    &&& b[y][0] != TTTShape::Blank
    &&& forall|x: int| 0 <= x < BOARD_SIZE ==> #[trigger] b[y][x] == b[y][0]
}

/// Column `x` holds one player mark in all its cells.
pub open spec fn column_uniform(b: Seq<Seq<TTTShape>>, x: int) -> bool {
    &&& b[0][x] != TTTShape::Blank
    &&& forall|y: int| 0 <= y < BOARD_SIZE ==> #[trigger] b[y][x] == b[0][x]
}

/// The row of the `i`-th cell of the main diagonal (which starts top-left),
/// or of the anti-diagonal (which starts bottom-left); its column is `i`.
pub open spec fn diagonal_row(i: int, anti: bool) -> int {
    if anti {
        BOARD_SIZE - 1 - i
    } else {
        i
    }
}

/// Every cell of the chosen diagonal holds `s`.
pub open spec fn diagonal_all(b: Seq<Seq<TTTShape>>, s: TTTShape, anti: bool) -> bool {
    forall|i: int| 0 <= i < BOARD_SIZE ==> #[trigger] b[diagonal_row(i, anti)][i] == s
}

/// The main diagonal (top-left to bottom-right) holds one player mark.
pub open spec fn diagonal_uniform(b: Seq<Seq<TTTShape>>) -> bool {
    b[0][0] != TTTShape::Blank && diagonal_all(b, b[0][0], false)
}

/// The anti-diagonal (top-right to bottom-left) holds one player mark.
pub open spec fn anti_diagonal_uniform(b: Seq<Seq<TTTShape>>) -> bool {
    let top_right = b[0][BOARD_SIZE - 1];
    top_right != TTTShape::Blank && diagonal_all(b, top_right, true)
}

/// The mark of the first uniform row at index `y` or below it in the grid.
pub open spec fn rows_winner_from(b: Seq<Seq<TTTShape>>, y: int) -> Option<TTTShape>
    decreases BOARD_SIZE - y,
{
    if y >= BOARD_SIZE || y < 0 {
        None
    } else if row_uniform(b, y) {
        Some(b[y][0])
    } else {
        rows_winner_from(b, y + 1)
    }
}

/// The mark of the first uniform column at index `x` or right of it.
pub open spec fn columns_winner_from(b: Seq<Seq<TTTShape>>, x: int) -> Option<TTTShape>
    decreases BOARD_SIZE - x,
{
    if x >= BOARD_SIZE || x < 0 {
        None
    } else if column_uniform(b, x) {
        Some(b[0][x])
    } else {
        columns_winner_from(b, x + 1)
    }
}

/// The mark of the topmost uniform row.
pub open spec fn rows_winner(b: Seq<Seq<TTTShape>>) -> Option<TTTShape> {
    rows_winner_from(b, 0)
}

/// The mark of the leftmost uniform column.
pub open spec fn columns_winner(b: Seq<Seq<TTTShape>>) -> Option<TTTShape> {
    columns_winner_from(b, 0)
}

/// The mark of the main diagonal, if it is uniform.
pub open spec fn diagonal_winner(b: Seq<Seq<TTTShape>>) -> Option<TTTShape> {
    if diagonal_uniform(b) {
        Some(b[0][0])
    } else {
        None
    }
}

/// The mark of the anti-diagonal, if it is uniform.
pub open spec fn anti_diagonal_winner(b: Seq<Seq<TTTShape>>) -> Option<TTTShape> {
    if anti_diagonal_uniform(b) {
        Some(b[0][BOARD_SIZE - 1])
    } else {
        None
    }
}

/// The winning mark: rows first, then columns, the main diagonal and the
/// anti-diagonal, the first uniform line found deciding.
pub open spec fn winning_shape(b: Seq<Seq<TTTShape>>) -> Option<TTTShape> {
    match rows_winner(b) {
        Some(s) => Some(s),
        None => match columns_winner(b) {
            Some(s) => Some(s),
            None => match diagonal_winner(b) {
                Some(s) => Some(s),
                None => anti_diagonal_winner(b),
            },
        },
    }
}

/// Some row, column or diagonal holds one player mark in all its cells.
pub open spec fn has_uniform_line(b: Seq<Seq<TTTShape>>) -> bool {
    ||| exists|y: int| 0 <= y < BOARD_SIZE && #[trigger] row_uniform(b, y)
    ||| exists|x: int| 0 <= x < BOARD_SIZE && #[trigger] column_uniform(b, x)
    ||| diagonal_uniform(b)
    ||| anti_diagonal_uniform(b)
}

/// The first line of the rendering: the column indices.
pub open spec fn header_text() -> Seq<char> {
    seq![' ', '0', '|', '1', '|', '2', ' ', '\n']
}

/// The decimal digit of a row index below ten.
pub open spec fn digit_char(i: int) -> char {
    (i + 48) as char
}

/// Each cell's mark followed by a divider, for the first `n` cells of a row.
pub open spec fn cells_text(row: Seq<TTTShape>, n: int) -> Seq<char>
    decreases n,
{
    if n <= 0 {
        Seq::empty()
    } else {
        cells_text(row, n - 1) + shape_text(row[n - 1]) + seq!['|']
    }
}

/// One rendered row: `|a|b|c|` followed by the row index and a newline.
pub open spec fn row_text(row: Seq<TTTShape>, y: int) -> Seq<char> {
    seq!['|'] + cells_text(row, row.len() as int) + seq![digit_char(y), '\n']
}

/// The rendering of the first `n` rows.
pub open spec fn rows_text(b: Seq<Seq<TTTShape>>, n: int) -> Seq<char>
    decreases n,
{
    if n <= 0 {
        Seq::empty()
    } else {
        rows_text(b, n - 1) + row_text(b[n - 1], n - 1)
    }
}

/// The whole rendering: the header, then one line per row.
pub open spec fn board_text(b: Seq<Seq<TTTShape>>) -> Seq<char> {
    header_text() + rows_text(b, b.len() as int)
}

} // verus!
