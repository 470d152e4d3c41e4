use vstd::prelude::*;

use crate::player::Player;

verus! {

/// One square of the board: empty, or holding the mark of one player.
#[derive(PartialEq, Eq, Structural, Debug, Clone, Copy)]
pub enum Square {
    X,
    O,
    EMPTY,
}

/// The mark a player leaves in a square.
pub open spec fn mark_of(p: Player) -> Square {
    match p {
        Player::X => Square::X,
        Player::O => Square::O,
    }
}

/// The single-character label under which a square is displayed:
/// the owning player's label, or a blank for an empty square.
pub open spec fn square_label(s: Square) -> Seq<char> {
    match s {
        Square::X => "X"@,
        Square::O => "O"@,
        Square::EMPTY => " "@,
    }
}

impl Square {
    /// Wraps a player as an occupied square.
    pub fn from_player(player: &Player) -> (r: Square)
        ensures
            r == mark_of(*player),
    {
        match player {
            Player::X => Square::X,
            Player::O => Square::O,
        }
    }

    /// True iff this square holds exactly that player's mark;
    /// an empty square is filled by nobody.
    pub fn filled_by(&self, player: &Player) -> (r: bool)
        ensures
            r == (*self == mark_of(*player)),
    {
        match player {
            Player::X => *self == Square::X,
            Player::O => *self == Square::O,
        }
    }

    /// True iff the square is not empty.
    pub fn is_filled(&self) -> (r: bool)
        ensures
            r == (*self != Square::EMPTY),
    {
        *self != Square::EMPTY
    }

    /// The square's display label.
    pub fn label(&self) -> (r: &'static str)
        ensures
            r@ == square_label(*self),
    {
        match self {
            Square::X => "X",
            Square::O => "O",
            Square::EMPTY => " ",
        }
    }
}

impl Default for Square {
    /// A square starts out empty.
    fn default() -> (r: Square)
        ensures
            r == Square::EMPTY,
    {
        Square::EMPTY
    }
}

} // verus!
