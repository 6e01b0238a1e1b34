//! Cell symbols and the engine's error kinds.
use vstd::prelude::*;

verus! {

/// The mark held by a board cell: one of the two players' marks, or nothing.
#[derive(Debug, PartialEq, Eq, Structural, Clone, Copy)]
pub enum TTTShape {
    X,
    O,
    Blank,
}

/// Why an engine operation was refused.
#[derive(Debug, PartialEq, Eq, Structural, Clone, Copy)]
pub enum TTTError {
    /// A coordinate lies outside the board.
    IndexOutOfRange,
    /// The target cell already holds a mark.
    ShapeAlreadyPlaced,
    /// Both player slots are already taken.
    RegistrationFull,
}

/// The symbol bound to player slot `n`; any other number stands for no mark.
pub open spec fn shape_of_slot(n: int) -> TTTShape {
    if n == 0 {
        TTTShape::X
    } else if n == 1 {
        TTTShape::O
    } else {
        TTTShape::Blank
    }
}

/// The player slot bound to a mark (`Blank` is bound to none).
pub open spec fn slot_of_shape(s: TTTShape) -> int {
    match s {
        TTTShape::X => 0,
        TTTShape::O => 1,
        TTTShape::Blank => 2,
    }
}

/// How a mark is drawn on the board.
pub open spec fn shape_text(s: TTTShape) -> Seq<char> {
    match s {
        TTTShape::X => seq!['X'],
        TTTShape::O => seq!['O'],
        TTTShape::Blank => seq![' '],
    }
}

impl TTTShape {
    /// The player slot this mark is bound to; only player marks have one.
    pub fn slot(&self) -> (r: usize)
        requires
            *self != TTTShape::Blank,
        ensures
            r as int == slot_of_shape(*self),
            r < 2,
    {
        match self {
            TTTShape::X => 0,
            TTTShape::O => 1,
            TTTShape::Blank => 2,
        }
    }

    /// The one-character text of this mark.
    pub fn as_str(&self) -> (r: &'static str)
        ensures
            r@ == shape_text(*self),
    {
        match self {
            TTTShape::X => {
                proof {
                    reveal_strlit("X");
                }
                "X"
            },
            TTTShape::O => {
                proof {
                    reveal_strlit("O");
                }
                "O"
            },
            TTTShape::Blank => {
                proof {
                    reveal_strlit(" ");
                }
                " "
            },
        }
    }

    /// The text of this mark as an owned string.
    pub fn to_string(&self) -> (r: String)
        ensures
            r@ == shape_text(*self),
    {
        String::from_str(self.as_str())
    }
}

impl Default for TTTShape {
    fn default() -> (r: Self)
        ensures
            r == TTTShape::Blank,
    {
        TTTShape::Blank
    }
}

impl From<usize> for TTTShape {
    fn from(num: usize) -> (r: Self)
        ensures
            r == shape_of_slot(num as int),
    {
        if num == 0 {
            TTTShape::X
        } else if num == 1 {
            TTTShape::O
        } else {
            TTTShape::Blank
        }
    }
}

impl vstd::std_specs::convert::FromSpecImpl<usize> for TTTShape {
    open spec fn obeys_from_spec() -> bool {
        true
    }

    open spec fn from_spec(num: usize) -> TTTShape {
        shape_of_slot(num as int)
    }
}

} // verus!
