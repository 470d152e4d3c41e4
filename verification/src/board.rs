use vstd::prelude::*;
use vstd::string::StringExecFns;

use crate::player::{player_label, Player};
use crate::position::Position;
use crate::{GameError, GameState};

verus! {

/// The mathematical model of a board: three rows of three cells, each cell
/// empty or holding one player's mark.
pub type Grid = Seq<Seq<Option<Player>>>;

/// The grid has exactly three rows of exactly three cells.
pub open spec fn grid_wf(g: Grid) -> bool {
    g.len() == 3 && forall|r: int| 0 <= r < 3 ==> (#[trigger] g[r]).len() == 3
}

/// The cell a 1-based position addresses.
pub open spec fn grid_at(g: Grid, pos: Position) -> Option<Player> {
    g[pos.row - 1][pos.col - 1]
}

/// The grid of a freshly created board: all nine cells empty.
pub open spec fn empty_grid() -> Grid {
    Seq::new(3, |r: int| Seq::new(3, |c: int| None::<Player>))
}

/// The grid after a player puts a mark at a position; every other cell
/// keeps its value.
pub open spec fn place(g: Grid, p: Player, pos: Position) -> Grid {
    let r = pos.row - 1;
    let c = pos.col - 1;
    g.update(r, g[r].update(c, Some(p)))
}

/// Row `r` is fully occupied by player `p`.
pub open spec fn row_won(g: Grid, p: Player, r: int) -> bool {
    forall|c: int| 0 <= c < 3 ==> g[r][c] == Some(p)
}

/// Column `c` is fully occupied by player `p`.
pub open spec fn col_won(g: Grid, p: Player, c: int) -> bool {
    forall|r: int| 0 <= r < 3 ==> g[r][c] == Some(p)
}

/// The main diagonal (1,1),(2,2),(3,3) is fully occupied by player `p`.
pub open spec fn main_diagonal_won(g: Grid, p: Player) -> bool {
    g[0][0] == Some(p) && g[1][1] == Some(p) && g[2][2] == Some(p)
}

/// The anti-diagonal (3,1),(2,2),(1,3) is fully occupied by player `p`.
pub open spec fn anti_diagonal_won(g: Grid, p: Player) -> bool {
    g[2][0] == Some(p) && g[1][1] == Some(p) && g[0][2] == Some(p)
}

/// Player `p` holds one of the eight winning lines: a row, a column, or a
/// diagonal.
pub open spec fn player_won(g: Grid, p: Player) -> bool {
    ||| exists|r: int| 0 <= r < 3 && row_won(g, p, r)
    ||| exists|c: int| 0 <= c < 3 && col_won(g, p, c)
    ||| main_diagonal_won(g, p)
    ||| anti_diagonal_won(g, p)
}

/// All nine cells are occupied.
pub open spec fn grid_full(g: Grid) -> bool {
    forall|r: int, c: int| 0 <= r < 3 && 0 <= c < 3 ==> (#[trigger] g[r][c]) is Some
}

/// The phase of the game seen by the player who just moved: a win if that
/// player holds a line, otherwise a draw if the board is full, otherwise
/// the game goes on. The win check comes first on purpose.
pub open spec fn phase(g: Grid, p: Player) -> GameState {
    if player_won(g, p) {
        GameState::Winner(p)
    } else if grid_full(g) {
        GameState::NoWinner
    } else {
        GameState::InProgress
    }
}

/// The single-character label under which a cell is displayed: the
/// occupying player's label, or a blank for an empty cell.
pub open spec fn cell_label(c: Option<Player>) -> Seq<char> {
    match c {
        Some(p) => player_label(p),
        None => " "@,
    }
}

/// The textual form of one row of the grid: its three cell labels between
/// separators, closed off by the horizontal rule.
pub open spec fn row_text(row: Seq<Option<Player>>) -> Seq<char> {
    "\n  "@ + cell_label(row[0]) + "  |  "@ + cell_label(row[1]) + "  |  "@ + cell_label(row[2])
        + "  \n================="@
}

/// The textual form of the whole grid: a horizontal rule, then each row.
pub open spec fn grid_text(g: Grid) -> Seq<char> {
    "================="@ + row_text(g[0]) + row_text(g[1]) + row_text(g[2])
}

/// The message with which a move onto a square occupied by `p` is rejected.
pub open spec fn occupied_msg(p: Player) -> Seq<char> {
    match p {
        Player::X => "Player X has already played in this square. Please select a different square."@,
        Player::O => "Player O has already played in this square. Please select a different square."@,
    }
}

/// A 3x3 grid of cells, row-major, addressed externally by 1-based
/// positions. Created empty; mutated only through `play_move`, which never
/// clears a cell that was set.
#[derive(PartialEq, Debug)]
pub struct Board {
    pub squares: Vec<Vec<Option<Player>>>,
}

impl Board {
    /// The board's abstract value.
    pub open spec fn grid(self) -> Grid {
        self.squares@.map_values(|row: Vec<Option<Player>>| row@)
    }

    /// The board really is 3x3.
    pub open spec fn wf(self) -> bool {
        grid_wf(self.grid())
    }

    /// A fresh board with all nine cells empty.
    pub fn new() -> (r: Board)
        ensures
            r.wf(),
            r.grid() == empty_grid(),
    {
        let mut squares: Vec<Vec<Option<Player>>> = Vec::new();
        squares.push(Self::empty_row());
        squares.push(Self::empty_row());
        squares.push(Self::empty_row());
        let board = Board { squares };
        proof {
            assert(board.grid() =~~= empty_grid());
        }
        board
    }

    fn empty_row() -> (r: Vec<Option<Player>>)
        ensures
            r@ =~= seq![None::<Player>, None::<Player>, None::<Player>],
    {
        let mut row: Vec<Option<Player>> = Vec::new();
        row.push(None);
        row.push(None);
        row.push(None);
        row
    }

    /// Applies one move: rejects it without touching the board when the
    /// target square is occupied, naming the player in the way; otherwise
    /// places the mark and reports the resulting phase of the game.
    pub fn play_move(&mut self, player: &Player, position: Position) -> (r: Result<
        GameState,
        GameError,
    >)
        requires
            old(self).wf(),
            position.valid(),
        ensures
            final(self).wf(),
            grid_at(old(self).grid(), position) matches Some(q) ==> ({
                &&& *final(self) == *old(self)
                &&& r matches Err(e) && e.message@ == occupied_msg(q)
            }),
            grid_at(old(self).grid(), position) is None ==> ({
                &&& final(self).grid() == place(old(self).grid(), *player, position)
                &&& r == Ok::<GameState, GameError>(phase(final(self).grid(), *player))
            }),
    {
        match self.get_position(&position) {
            Some(filled) => {
                let occupant = *filled;
                Err(GameError { message: Self::occupied_message(&occupant) })
            },
            None => {
                self.set_position(&position, player);
                if self.check_if_player_won(player) {
                    Ok(GameState::Winner(*player))
                } else if self.board_full() {
                    Ok(GameState::NoWinner)
                } else {
                    Ok(GameState::InProgress)
                }
            },
        }
    }

    fn occupied_message(player: &Player) -> (r: String)
        ensures
            r@ == occupied_msg(*player),
    {
        let text: &str = match player {
            Player::X => "Player X has already played in this square. Please select a different square.",
            Player::O => "Player O has already played in this square. Please select a different square.",
        };
        text.to_owned()
    }

    /// True iff the player holds a complete row, column, or diagonal.
    pub fn check_if_player_won(&self, player: &Player) -> (r: bool)
        requires
            self.wf(),
        ensures
            r == player_won(self.grid(), *player),
    {
        self.check_row(player, 0) || self.check_row(player, 1) || self.check_row(player, 2)
            || self.check_col(player, 0) || self.check_col(player, 1) || self.check_col(player, 2)
            || self.check_diagonals(player)
    }

    /// The occupant of the addressed square, if any.
    pub fn get_position(&self, position: &Position) -> (r: Option<&Player>)
        requires
            self.wf(),
            position.valid(),
        ensures
            match r {
                Some(p) => grid_at(self.grid(), *position) == Some(*p),
                None => grid_at(self.grid(), *position) is None,
            },
    {
        match &self.squares[(position.row as usize) - 1][(position.col as usize) - 1] {
            Some(p) => Some(p),
            None => None,
        }
    }

    /// Puts the player's mark in the addressed square, whatever it held.
    pub fn set_position(&mut self, position: &Position, player: &Player)
        requires
            old(self).wf(),
            position.valid(),
        ensures
            final(self).wf(),
            final(self).grid() == place(old(self).grid(), *player, *position),
    {
        let row_index: usize = (position.row as usize) - 1;
        let col_index: usize = (position.col as usize) - 1;
        proof {
            assert(self.grid()[row_index as int] == self.squares@[row_index as int]@);
        }
        self.squares[row_index][col_index] = Some(*player);
        proof {
            assert(final(self).grid() =~~= place(old(self).grid(), *player, *position));
        }
    }

    /// The plain textual form of the board, three rows between horizontal
    /// rules, ready for a presentation layer to print or style.
    pub fn render(&self) -> (out: String)
        requires
            self.wf(),
        ensures
            out@ == grid_text(self.grid()),
    {
        let mut out = String::new();
        out.append("=================");
        let row0 = self.row_string(0);
        out.append(row0.as_str());
        let row1 = self.row_string(1);
        out.append(row1.as_str());
        let row2 = self.row_string(2);
        out.append(row2.as_str());
        proof {
            assert(out@ =~= grid_text(self.grid()));
        }
        out
    }

    fn row_string(&self, row: usize) -> (out: String)
        requires
            self.wf(),
            row < 3,
        ensures
            out@ == row_text(self.grid()[row as int]),
    {
        let mut out = String::new();
        out.append("\n  ");
        out.append(self.cell_str(row, 0));
        out.append("  |  ");
        out.append(self.cell_str(row, 1));
        out.append("  |  ");
        out.append(self.cell_str(row, 2));
        out.append("  \n=================");
        proof {
            assert(out@ =~= row_text(self.grid()[row as int]));
        }
        out
    }

    fn cell_str(&self, row: usize, col: usize) -> (r: &'static str)
        requires
            self.wf(),
            row < 3,
            col < 3,
        ensures
            r@ == cell_label(self.grid()[row as int][col as int]),
    {
        proof {
            assert(self.grid()[row as int] == self.squares@[row as int]@);
        }
        match &self.squares[row][col] {
            Some(p) => p.label(),
            None => " ",
        }
    }

    fn board_full(&self) -> (r: bool)
        requires
            self.wf(),
        ensures
            r == grid_full(self.grid()),
    {
        self.square_filled(0, 0) && self.square_filled(0, 1)
            && self.square_filled(0, 2) && self.square_filled(1, 0)
            && self.square_filled(1, 1) && self.square_filled(1, 2)
            && self.square_filled(2, 0) && self.square_filled(2, 1)
            && self.square_filled(2, 2)
    }

    fn square_filled(&self, row: usize, col: usize) -> (r: bool)
        requires
            self.wf(),
            row < 3,
            col < 3,
        ensures
            r == (self.grid()[row as int][col as int] is Some),
    {
        self.squares[row][col].is_some()
    }

    fn square_matches(&self, row: usize, col: usize, player: &Player) -> (r: bool)
        requires
            self.wf(),
            row < 3,
            col < 3,
        ensures
            r == (self.grid()[row as int][col as int] == Some(*player)),
    {
        match &self.squares[row][col] {
            Some(p) => *p == *player,
            None => false,
        }
    }

    fn check_col(&self, player: &Player, col_number: usize) -> (r: bool)
        requires
            self.wf(),
            col_number < 3,
        ensures
            r == col_won(self.grid(), *player, col_number as int),
    {
        self.square_matches(0, col_number, player) && self.square_matches(1, col_number, player)
            && self.square_matches(2, col_number, player)
    }

    fn check_row(&self, player: &Player, row_number: usize) -> (r: bool)
        requires
            self.wf(),
            row_number < 3,
        ensures
            r == row_won(self.grid(), *player, row_number as int),
    {
        self.square_matches(row_number, 0, player) && self.square_matches(row_number, 1, player)
            && self.square_matches(row_number, 2, player)
    }

    fn check_diagonals(&self, player: &Player) -> (r: bool)
        requires
            self.wf(),
        ensures
            r == (main_diagonal_won(self.grid(), *player) || anti_diagonal_won(
                self.grid(),
                *player,
            )),
    {
        (self.square_matches(0, 0, player) && self.square_matches(1, 1, player)
            && self.square_matches(2, 2, player)) || (self.square_matches(2, 0, player)
            && self.square_matches(1, 1, player) && self.square_matches(0, 2, player))
    }
}

/// Law: on the empty board every position is open, and after a player has
/// played at a position that cell holds exactly that player's mark. Through
/// `play_move`'s contract this means the first play is accepted, and an
/// immediate replay at the same position, by either player, is rejected
/// with the message naming the first player while the board stays as it was.
pub proof fn lemma_replay_at_same_position_rejected(pl: Player, pos: Position)
    requires
        pos.valid(),
    ensures
        grid_at(empty_grid(), pos) is None,
        grid_at(place(empty_grid(), pl, pos), pos) == Some(pl),
{
}

/// Law: placing a mark never clears a cell: every square occupied before a
/// move is still occupied by the same player afterwards unless it is the
/// square just played, which then holds the mover's mark.
pub proof fn lemma_place_never_clears_a_cell(g: Grid, p: Player, pos: Position, other: Position)
    requires
        grid_wf(g),
        pos.valid(),
        other.valid(),
        grid_at(g, other) is Some,
    ensures
        grid_at(place(g, p, pos), other) is Some,
        other != pos ==> grid_at(place(g, p, pos), other) == grid_at(g, other),
        other == pos ==> grid_at(place(g, p, pos), other) == Some(p),
{
}

/// Law: a complete row of one player's marks means that player has won, and
/// the phase reported for that player is Winner.
pub proof fn lemma_row_win(g: Grid, p: Player, r: int)
    requires
        grid_wf(g),
        0 <= r < 3,
        row_won(g, p, r),
    ensures
        player_won(g, p),
        phase(g, p) == GameState::Winner(p),
{
}

/// Law: a complete column of one player's marks means that player has won,
/// and the phase reported for that player is Winner.
pub proof fn lemma_col_win(g: Grid, p: Player, c: int)
    requires
        grid_wf(g),
        0 <= c < 3,
        col_won(g, p, c),
    ensures
        player_won(g, p),
        phase(g, p) == GameState::Winner(p),
{
}

/// Law: either complete diagonal of one player's marks means that player
/// has won, and the phase reported for that player is Winner.
pub proof fn lemma_diagonal_win(g: Grid, p: Player)
    requires
        grid_wf(g),
        main_diagonal_won(g, p) || anti_diagonal_won(g, p),
    ensures
        player_won(g, p),
        phase(g, p) == GameState::Winner(p),
{
}

/// Law: a full board on which neither player holds a complete line is a
/// draw, whichever player made the last move.
pub proof fn lemma_full_board_without_line_is_draw(g: Grid, p: Player)
    requires
        grid_wf(g),
        grid_full(g),
        !player_won(g, Player::X),
        !player_won(g, Player::O),
    ensures
        phase(g, p) == GameState::NoWinner,
{
}

/// Law: the win check precedes the draw check. On a full board where the
/// acting player holds a line the phase is Winner, never NoWinner.
pub proof fn lemma_win_takes_precedence_over_draw(g: Grid, p: Player)
    requires
        grid_wf(g),
        grid_full(g),
        player_won(g, p),
    ensures
        phase(g, p) == GameState::Winner(p),
        phase(g, p) != GameState::NoWinner,
{
}

} // verus!
