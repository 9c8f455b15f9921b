//! The tic-tac-toe game state and every rule that mutates it.
//!
//! The board is a row-major vector of nine cells; `cursor_x` is the column
//! and `cursor_y` the row of the highlighted cell, each clamped to `[0, 2]`.
//! `X` always moves first in a fresh game. A win is detected by scanning the
//! three rows, then the three columns, then the main diagonal, then the
//! anti-diagonal; when several lines match at once, the line checked last
//! decides the winner.

use vstd::prelude::*;

verus! {

/// One of the two players. `X` opens every fresh game.
#[derive(Clone, Copy, Debug, PartialEq, Eq, Structural)]
pub enum Player {
    X,
    O,
}

/// One square of the board: empty, or marked by the player who claimed it.
#[derive(Clone, Copy, Debug, PartialEq, Eq, Structural)]
pub enum Cell {
    Empty,
    MarkedBy(Player),
}

/// The terminal classification of a game, derived on demand from the state:
/// a recorded winner takes precedence, then a full board counts as a draw.
#[derive(Clone, Copy, Debug, PartialEq, Eq, Structural)]
pub enum Outcome {
    InProgress,
    Won(Player),
    Draw,
}

/// The opponent of `p`.
pub open spec fn other_player(p: Player) -> Player {
    match p {
        Player::X => Player::O,
        Player::O => Player::X,
    }
}

/// Row-major position of `(row, col)` in the board vector.
pub open spec fn cell_index(row: int, col: int) -> int {
    row * 3 + col
}

/// How many cells of `b` are empty.
pub open spec fn empty_count(b: Seq<Cell>) -> nat
    decreases b.len(),
{
    if b.len() == 0 {
        0
    } else {
        empty_count(b.drop_last()) + if b.last() is Empty {
            1nat
        } else {
            0nat
        }
    }
}

/// The player holding the whole line `(i, j, k)` of `b`, if any.
pub open spec fn line_winner(b: Seq<Cell>, i: int, j: int, k: int) -> Option<Player> {
    match b[i] {
        Cell::MarkedBy(p) => if b[j] == b[i] && b[k] == b[i] {
            Some(p)
        } else {
            None
        },
        Cell::Empty => None,
    }
}

/// The winner that a full scan of the eight lines reports. The scan visits
/// rows 0..2, then columns 0..2, then the main diagonal, then the
/// anti-diagonal, and a later match overwrites an earlier one, so the value
/// is the matching line that comes last in that order.
pub open spec fn scan_winner(b: Seq<Cell>) -> Option<Player> {
    let anti = line_winner(b, 2, 4, 6);
    let diag = line_winner(b, 0, 4, 8);
    let col2 = line_winner(b, 2, 5, 8);
    let col1 = line_winner(b, 1, 4, 7);
    let col0 = line_winner(b, 0, 3, 6);
    let row2 = line_winner(b, 6, 7, 8);
    let row1 = line_winner(b, 3, 4, 5);
    let row0 = line_winner(b, 0, 1, 2);
    if anti is Some {
        anti
    } else if diag is Some {
        diag
    } else if col2 is Some {
        col2
    } else if col1 is Some {
        col1
    } else if col0 is Some {
        col0
    } else if row2 is Some {
        row2
    } else if row1 is Some {
        row1
    } else {
        row0
    }
}

/// An all-empty board has as many empty cells as cells.
proof fn lemma_empty_count_all(b: Seq<Cell>)
    requires
        forall|i: int| 0 <= i < b.len() ==> b[i] is Empty,
    ensures
        empty_count(b) == b.len(),
    decreases b.len(),
{
    if b.len() > 0 {
        lemma_empty_count_all(b.drop_last());
    }
}

/// A board with an empty cell has at least one empty cell.
proof fn lemma_empty_count_at(b: Seq<Cell>, i: int)
    requires
        0 <= i < b.len(),
        b[i] is Empty,
    ensures
        empty_count(b) >= 1,
    decreases b.len(),
{
    if i < b.len() - 1 {
        lemma_empty_count_at(b.drop_last(), i);
    }
}

/// Marking an empty cell lowers the number of empty cells by exactly one.
proof fn lemma_empty_count_update(b: Seq<Cell>, i: int, p: Player)
    requires
        0 <= i < b.len(),
        b[i] is Empty,
    ensures
        empty_count(b.update(i, Cell::MarkedBy(p))) + 1 == empty_count(b),
    decreases b.len(),
{
    let marked = b.update(i, Cell::MarkedBy(p));
    if i == b.len() - 1 {
        assert(marked.drop_last() =~= b.drop_last());
    } else {
        assert(marked.drop_last() =~= b.drop_last().update(i, Cell::MarkedBy(p)));
        lemma_empty_count_update(b.drop_last(), i, p);
    }
}

/// The whole state of one running game: the sole mutable value of the
/// application, owned by the run loop and changed only through the methods
/// below.
#[derive(Clone, Debug, PartialEq, Eq)]
pub struct GameState {
    /// Column of the highlighted cell, in `[0, 2]`.
    pub cursor_x: usize,
    /// Row of the highlighted cell, in `[0, 2]`.
    pub cursor_y: usize,
    /// The player whose turn it is.
    pub next_player: Player,
    /// The nine cells of the board, row-major.
    pub board: Vec<Cell>,
    /// How many cells are still empty.
    pub case_left: usize,
    /// The recorded winner, if a finished scan has found one.
    pub winner: Option<Player>,
}

impl GameState {
    /// Row-major position of the cursor in the board vector.
    pub open spec fn cursor_index(self) -> int {
        cell_index(self.cursor_y as int, self.cursor_x as int)
    }

    /// Well-formedness of a game state: the cursor is on the board,
    /// the board has nine cells, `case_left` counts the empty ones, and a
    /// recorded winner pins the cursor on the winning placement, an
    /// occupied cell. Every constructor establishes this and every method
    /// preserves it.
    pub open spec fn wf(self) -> bool {
        &&& self.cursor_x <= 2
        &&& self.cursor_y <= 2
        &&& self.board@.len() == 9
        &&& self.case_left == empty_count(self.board@)
        &&& (self.winner is Some ==> self.board@[self.cursor_index()] !is Empty)
    }

    /// The game is over: a winner is recorded, or no empty cell is left.
    pub open spec fn game_end_spec(self) -> bool {
        self.winner is Some || self.case_left == 0
    }

    /// The state a fresh game starts from: an empty board, the cursor on
    /// the top-left cell, `X` to move, nine empty cells, no winner.
    pub open spec fn is_initial(self) -> bool {
        &&& self.cursor_x == 0
        &&& self.cursor_y == 0
        &&& self.next_player == Player::X
        &&& self.board@.len() == 9
        &&& (forall|i: int| 0 <= i < 9 ==> self.board@[i] is Empty)
        &&& self.case_left == 9
        &&& self.winner is None
    }

    /// The derived classification of the game.
    pub open spec fn outcome_spec(self) -> Outcome {
        match self.winner {
            Some(p) => Outcome::Won(p),
            None => if self.case_left == 0 {
                Outcome::Draw
            } else {
                Outcome::InProgress
            },
        }
    }

    /// Reports whether the game is over: a winner is recorded or the board
    /// is full. A finished game ignores every operation but a reset.
    pub fn is_game_end(&mut self) -> (r: bool)
        ensures
            *final(self) == *old(self),
            r == old(self).game_end_spec(),
            r == (old(self).outcome_spec() !is InProgress),
    {
        if self.winner.is_some() || self.case_left == 0 {
            return true;
        }
        false
    }

    /// The derived classification of the game: a recorded winner, else a
    /// draw once the board is full, else still in progress.
    pub fn outcome(&self) -> (r: Outcome)
        ensures
            r == self.outcome_spec(),
    {
        match self.winner {
            Some(p) => Outcome::Won(p),
            None => if self.case_left == 0 {
                Outcome::Draw
            } else {
                Outcome::InProgress
            },
        }
    }

    /// Moves the cursor one column left (`value == -1`) or right
    /// (`value == 1`). A move past an edge of the board is ignored, and a
    /// finished game ignores the request altogether. Any `value` other
    /// than `-1` or `1` breaks the caller's contract; both call sites of
    /// the application pass literals.
    pub fn move_horizontal(&mut self, value: i32)
        requires
            old(self).wf(),
            value == -1 || value == 1,
        ensures
            final(self).wf(),
            final(self).cursor_y == old(self).cursor_y,
            final(self).next_player == old(self).next_player,
            final(self).board == old(self).board,
            final(self).case_left == old(self).case_left,
            final(self).winner == old(self).winner,
            old(self).game_end_spec() ==> *final(self) == *old(self),
            !old(self).game_end_spec() ==> final(self).cursor_x as int == (
            if value == -1 {
                if old(self).cursor_x == 0 {
                    0int
                } else {
                    old(self).cursor_x - 1
                }
            } else {
                if old(self).cursor_x == 2 {
                    2int
                } else {
                    old(self).cursor_x + 1
                }
            }),
    {
        if !self.is_game_end() {
            if value == -1 {
                if self.cursor_x != 0 {
                    self.cursor_x -= 1;
                }
            } else {
                if self.cursor_x != 2 {
                    self.cursor_x += 1;
                }
            }
        }
    }

    /// Moves the cursor one row up (`value == -1`) or down (`value == 1`),
    /// with the same edge clamping and end-of-game gating as
    /// `move_horizontal`.
    pub fn move_vertical(&mut self, value: i32)
        requires
            old(self).wf(),
            value == -1 || value == 1,
        ensures
            final(self).wf(),
            final(self).cursor_x == old(self).cursor_x,
            final(self).next_player == old(self).next_player,
            final(self).board == old(self).board,
            final(self).case_left == old(self).case_left,
            final(self).winner == old(self).winner,
            old(self).game_end_spec() ==> *final(self) == *old(self),
            !old(self).game_end_spec() ==> final(self).cursor_y as int == (
            if value == -1 {
                if old(self).cursor_y == 0 {
                    0int
                } else {
                    old(self).cursor_y - 1
                }
            } else {
                if old(self).cursor_y == 2 {
                    2int
                } else {
                    old(self).cursor_y + 1
                }
            }),
    {
        if !self.is_game_end() {
            if value == -1 {
                if self.cursor_y != 0 {
                    self.cursor_y -= 1;
                }
            } else {
                if self.cursor_y != 2 {
                    self.cursor_y += 1;
                }
            }
        }
    }

    /// Hands the turn to the other player.
    pub fn switch_next_player(&mut self)
        ensures
            final(self).next_player == other_player(old(self).next_player),
            final(self).next_player != old(self).next_player,
            final(self).cursor_x == old(self).cursor_x,
            final(self).cursor_y == old(self).cursor_y,
            final(self).board == old(self).board,
            final(self).case_left == old(self).case_left,
            final(self).winner == old(self).winner,
            old(self).wf() ==> final(self).wf(),
    {
        match self.next_player {
            Player::X => self.next_player = Player::O,
            Player::O => self.next_player = Player::X,
        }
    }

    /// The player holding the whole line `(i, j, k)` of the board, if any.
    fn line_mark(&self, i: usize, j: usize, k: usize) -> (r: Option<Player>)
        requires
            self.board@.len() == 9,
            i < 9,
            j < 9,
            k < 9,
        ensures
            r == line_winner(self.board@, i as int, j as int, k as int),
    {
        match self.board[i] {
            Cell::MarkedBy(p) => {
                if self.board[j] == self.board[i] && self.board[k] == self.board[i] {
                    Some(p)
                } else {
                    None
                }
            },
            Cell::Empty => None,
        }
    }

    /// Evaluates the board after a placement: scans the three rows, the
    /// three columns, the main diagonal and the anti-diagonal, in that
    /// order, and records the winner of the line matched last, if any line
    /// matched; otherwise hands the turn to the other player, even when
    /// this placement has just filled the board. Runs once per successful
    /// placement, so the cursor still rests on the freshly occupied cell.
    pub fn check_win(&mut self)
        requires
            old(self).wf(),
            old(self).board@[old(self).cursor_index()] !is Empty,
        ensures
            final(self).wf(),
            final(self).board == old(self).board,
            final(self).cursor_x == old(self).cursor_x,
            final(self).cursor_y == old(self).cursor_y,
            final(self).case_left == old(self).case_left,
            final(self).winner == (if scan_winner(old(self).board@) is Some {
                scan_winner(old(self).board@)
            } else {
                old(self).winner
            }),
            final(self).next_player == (if scan_winner(old(self).board@) is None {
                other_player(old(self).next_player)
            } else {
                old(self).next_player
            }),
    {
        let mut line: Option<Player> = None;

        // check row win
        if let Some(p) = self.line_mark(0, 1, 2) {
            line = Some(p);
        }
        if let Some(p) = self.line_mark(3, 4, 5) {
            line = Some(p);
        }
        if let Some(p) = self.line_mark(6, 7, 8) {
            line = Some(p);
        }
        // check col win
        if let Some(p) = self.line_mark(0, 3, 6) {
            line = Some(p);
        }
        if let Some(p) = self.line_mark(1, 4, 7) {
            line = Some(p);
        }
        if let Some(p) = self.line_mark(2, 5, 8) {
            line = Some(p);
        }
        // check for diagonal win
        if let Some(p) = self.line_mark(0, 4, 8) {
            line = Some(p);
        }
        // check for diagonal win other side
        if let Some(p) = self.line_mark(2, 4, 6) {
            line = Some(p);
        }

        match line {
            Some(p) => self.winner = Some(p),
            // no line matched: the turn passes to the other player
            None => self.switch_next_player(),
        }
    }

    /// Claims the highlighted cell for the active player. When that cell
    /// is empty, it is marked, the empty-cell count drops by one, and the
    /// board is evaluated as `check_win` describes; when it is occupied —
    /// in particular, always, once the game is over — nothing changes.
    pub fn select_case(&mut self)
        requires
            old(self).wf(),
        ensures
            final(self).wf(),
            final(self).cursor_x == old(self).cursor_x,
            final(self).cursor_y == old(self).cursor_y,
            old(self).board@[old(self).cursor_index()] !is Empty ==> *final(self) == *old(self),
            old(self).game_end_spec() ==> *final(self) == *old(self),
            old(self).board@[old(self).cursor_index()] is Empty ==> ({
                let placed = old(self).board@.update(
                    old(self).cursor_index(),
                    Cell::MarkedBy(old(self).next_player),
                );
                &&& final(self).board@ == placed
                &&& final(self).case_left + 1 == old(self).case_left
                &&& empty_count(final(self).board@) + 1 == empty_count(old(self).board@)
                &&& final(self).winner == (if scan_winner(placed) is Some {
                    scan_winner(placed)
                } else {
                    old(self).winner
                })
                &&& final(self).next_player == (if scan_winner(placed) is None {
                    other_player(old(self).next_player)
                } else {
                    old(self).next_player
                })
                &&& (scan_winner(placed) is None ==> final(self).next_player != old(
                    self,
                ).next_player)
            }),
    {
        let ci: usize = self.cursor_y * 3 + self.cursor_x;
        let selected_empty = match self.board[ci] {
            Cell::Empty => true,
            Cell::MarkedBy(_) => false,
        };
        if selected_empty {
            proof {
                lemma_empty_count_at(self.board@, ci as int);
                lemma_empty_count_update(self.board@, ci as int, self.next_player);
            }
            let mark = self.next_player;
            self.board.set(ci, Cell::MarkedBy(mark));
            self.case_left -= 1;
            self.check_win();
        }
    }

    /// Starts the game over, but only once it has ended: a finished game —
    /// won, or drawn on a full board — is replaced by a fresh initial
    /// state, while a game still in progress is left untouched.
    pub fn reload_game(&mut self)
        requires
            old(self).wf(),
        ensures
            final(self).wf(),
            !old(self).game_end_spec() ==> *final(self) == *old(self),
            old(self).game_end_spec() ==> final(self).is_initial(),
    {
        if self.is_game_end() {
            *self = GameState::default();
        }
    }
}

impl Default for GameState {
    /// A fresh game: empty board, cursor at the top-left cell, `X` to move.
    fn default() -> (s: Self)
        ensures
            s.is_initial(),
            s.wf(),
    {
        let mut board: Vec<Cell> = Vec::new();
        let mut i: usize = 0;
        while i < 9
            invariant
                i <= 9,
                board@.len() == i,
                forall|j: int| 0 <= j < i ==> board@[j] is Empty,
            decreases 9 - i,
        {
            board.push(Cell::Empty);
            i += 1;
        }
        proof {
            lemma_empty_count_all(board@);
        }
        GameState {
            cursor_x: 0,
            cursor_y: 0,
            next_player: Player::X,
            board,
            case_left: 9,
            winner: None,
        }
    }
}

} // verus!
