//! A registered player: a display name bound to a mark.
use vstd::prelude::*;

use crate::shape::{shape_text, TTTShape};

verus! {

/// A player: the mark it plays with, and its display name.
#[derive(Debug)]
pub struct Player(TTTShape, String);

/// The name held by an unset player slot.
pub open spec fn default_name() -> Seq<char> {
    seq!['N', 'o', 'n', 'e']
}

/// What an unset player slot holds: no mark, and the placeholder name.
pub open spec fn default_player() -> (TTTShape, Seq<char>) {
    (TTTShape::Blank, default_name())
}

/// How a player is shown: its name, then its mark in parentheses.
pub open spec fn player_text(p: (TTTShape, Seq<char>)) -> Seq<char> {
    p.1 + seq!['('] + shape_text(p.0) + seq![')']
}

impl View for Player {
    type V = (TTTShape, Seq<char>);

    closed spec fn view(&self) -> (TTTShape, Seq<char>) {
        (self.0, self.1@)
    }
}

impl Player {
    /// A player named `name` that plays with `shape`.
    pub(crate) fn new(shape: TTTShape, name: &str) -> (r: Player)
        ensures
            r@ == (shape, name@),
    {
        Player(shape, String::from_str(name))
    }

    /// The mark this player plays with.
    pub fn shape(&self) -> (r: &TTTShape)
        ensures
            *r == self@.0,
    {
        &self.0
    }

    /// The display name of this player.
    pub fn name(&self) -> (r: &String)
        ensures
            r@ == self@.1,
    {
        &self.1
    }

    /// The player as text: `name(mark)`.
    pub fn to_string(&self) -> (r: String)
        ensures
            r@ == player_text(self@),
    {
        let mut out = self.1.clone();
        out.append("(");
        out.append(self.0.as_str());
        out.append(")");
        proof {
            reveal_strlit("(");
            reveal_strlit(")");
        }
        out
    }
}

impl Default for Player {
    fn default() -> (r: Self)
        ensures
            r@ == default_player(),
    {
        proof {
            reveal_strlit("None");
        }
        Player(TTTShape::Blank, String::from_str("None"))
    }
}

} // verus!
