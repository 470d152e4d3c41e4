use vstd::prelude::*;

verus! {

/// One of the two identities that can own a square, conventionally
/// displayed as "X" and "O". X always plays the odd-numbered moves.
#[derive(PartialEq, Eq, Structural, Debug, Clone, Copy)]
pub enum Player {
    X,
    O,
}

/// The single-character label under which a player is displayed.
pub open spec fn player_label(p: Player) -> Seq<char> {
    match p {
        Player::X => "X"@,
        Player::O => "O"@,
    }
}

impl Player {
    /// Which player owns the given move number: X iff the number is odd.
    /// Defined for every integer; 0 and negative even numbers fall to O,
    /// negative odd numbers to X.
    pub fn from_move(move_number: i32) -> (r: Player)
        ensures
            r == Player::X <==> move_number % 2 != 0,
            r == Player::O <==> move_number % 2 == 0,
    {
        if move_number % 2 != 0 {
            Player::X
        } else {
            Player::O
        }
    }

    /// The player's display label.
    pub fn label(&self) -> (r: &'static str)
        ensures
            r@ == player_label(*self),
    {
        match self {
            Player::X => "X",
            Player::O => "O",
        }
    }
}

} // verus!
