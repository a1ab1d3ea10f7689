//! The game itself: the state that one session holds and the operations
//! that change it.

use crate::board::{
    count, empty_board, has_line, holds_line, is_full, is_grid, lemma_first_complete_line_wins,
    lemma_no_winner_iff_no_line, lemma_only_mark_with_a_line_wins, line_count, line_mark,
    on_grid, only_lines_of, put, winner_of, Board,
};
use crate::laws::{
    lemma_initial_is_consistent, lemma_moved_keeps_consistent, lemma_placed_keeps_consistent,
};
use crate::player::Player;
use vstd::prelude::*;

verus! {

/// A direction in which the cursor can be moved.
#[derive(Clone, Copy, Debug, PartialEq, Eq, Structural)]
pub enum Movement {
    Up,
    Down,
    Left,
    Right,
}

/// Where a game stands.
#[derive(Clone, Copy, Debug, PartialEq, Eq, Structural)]
pub enum Status {
    /// The game runs and this player is to move.
    Turn(Player),
    /// The game is over and this player has won.
    Won(Player),
    /// The game is over and nobody has won.
    Draw,
}

/// One game session.
///
/// `board[x][y]` is the cell in column `x` and row `y`; (`pos_x`, `pos_y`)
/// is the cell that the next mark goes to. `winner` is `Empty` while the
/// game runs and after a draw; `finished` tells the two apart.
pub struct Game {
    pub pos_x: usize,
    pub pos_y: usize,
    pub current_player: Player,
    pub board: Vec<Vec<Player>>,
    pub finished: bool,
    pub winner: Player,
}

/// A game as a mathematical value.
pub struct GameState {
    pub pos_x: int,
    pub pos_y: int,
    pub current_player: Player,
    pub board: Board,
    pub finished: bool,
    pub winner: Player,
}

/// One step towards 0 that stops at 0.
pub open spec fn step_down(v: int) -> int {
    if v != 0 {
        v - 1
    } else {
        v
    }
}

/// One step towards 2 that stops at 2 and leaves larger values alone.
pub open spec fn step_up(v: int) -> int {
    if v < 2 {
        v + 1
    } else {
        v
    }
}

impl GameState {
    /// The state in which every game starts: an empty grid, the cursor in
    /// the top left cell, `Cross` to move.
    pub open spec fn initial() -> GameState {
        GameState {
            pos_x: 0,
            pos_y: 0,
            current_player: Player::Cross,
            board: empty_board(),
            finished: false,
            winner: Player::Empty,
        }
    }

    /// The grid is three by three, the cursor is on it, and one of the two
    /// players is to move.
    pub open spec fn wf(self) -> bool {
        &&& is_grid(self.board)
        &&& on_grid(self.pos_x, self.pos_y)
        &&& self.current_player != Player::Empty
    }

    /// The grid, the turn and the result agree: every complete line belongs
    /// to the winner, who is the one that the grid shows; the game is over
    /// exactly when a line is complete or the grid is full; once it is over
    /// the cursor rests in the top left cell; and `Cross` has placed as
    /// many marks as `Nought` when `Cross` is to move, one more when
    /// `Nought` is.
    ///
    /// This holds of a fresh game and every operation keeps it, so it
    /// holds of every game that was only ever changed through them.
    pub open spec fn consistent(self) -> bool {
        &&& self.wf()
        &&& self.winner == winner_of(self.board)
        &&& forall|k: int|
            0 <= k < line_count() ==> #[trigger] line_mark(self.board, k) == Player::Empty
                || line_mark(self.board, k) == self.winner
        &&& self.finished <==> has_line(self.board) || is_full(self.board)
        &&& self.finished ==> self.pos_x == 0 && self.pos_y == 0
        &&& count(self.board, Player::Cross) == count(self.board, Player::Nought)
            + (if self.current_player == Player::Nought { 1int } else { 0int })
    }

    /// Where the game stands: who is to move, who has won, or that it is
    /// drawn.
    pub open spec fn status(self) -> Status {
        if !self.finished {
            Status::Turn(self.current_player)
        } else if self.winner == Player::Empty {
            Status::Draw
        } else {
            Status::Won(self.winner)
        }
    }

    /// The state after the cursor was asked to move: one cell in the
    /// direction given, unless it stands at that edge already or the game
    /// is over.
    pub open spec fn moved(self, direction: Movement) -> GameState {
        if self.finished {
            self
        } else {
            match direction {
                Movement::Up => GameState { pos_y: step_down(self.pos_y), ..self },
                Movement::Down => GameState { pos_y: step_up(self.pos_y), ..self },
                Movement::Left => GameState { pos_x: step_down(self.pos_x), ..self },
                Movement::Right => GameState { pos_x: step_up(self.pos_x), ..self },
            }
        }
    }

    /// A mark can be placed: the game runs and the cell under the cursor
    /// is empty.
    pub open spec fn can_place(self) -> bool {
        !self.finished && self.board[self.pos_x][self.pos_y] == Player::Empty
    }

    /// The state with the turn handed to the other player.
    pub open spec fn switched(self) -> GameState {
        GameState { current_player: self.current_player.opponent(), ..self }
    }

    /// The state after the grid was examined for a winner: where a line is
    /// complete, its mark has won, the game is over and the cursor is back
    /// in the top left cell.
    pub open spec fn decided(self) -> GameState {
        if winner_of(self.board) != Player::Empty {
            GameState {
                winner: winner_of(self.board),
                finished: true,
                pos_x: 0,
                pos_y: 0,
                ..self
            }
        } else {
            self
        }
    }

    /// The state after the grid was examined for a draw: where nobody has
    /// won and no cell is empty, the game is over without a winner and the
    /// cursor is back in the top left cell. A game with a winner stays as
    /// it is, full grid or not.
    pub open spec fn drawn(self) -> GameState {
        if self.winner == Player::Empty && is_full(self.board) {
            GameState { finished: true, pos_x: 0, pos_y: 0, ..self }
        } else {
            self
        }
    }

    /// The state after a mark was asked for. Where none can be placed the
    /// state stays as it is. Otherwise the player to move marks the cell
    /// under the cursor and the turn passes on; then the grid is examined
    /// for a winner and after that for a draw.
    pub open spec fn placed(self) -> GameState {
        if self.can_place() {
            let marked = GameState {
                board: put(self.board, self.pos_x, self.pos_y, self.current_player),
                ..self
            };
            marked.switched().decided().drawn()
        } else {
            self
        }
    }
}

impl View for Game {
    type V = GameState;

    open spec fn view(&self) -> GameState {
        GameState {
            pos_x: self.pos_x as int,
            pos_y: self.pos_y as int,
            current_player: self.current_player,
            board: Seq::new(self.board@.len(), |x: int| self.board@[x]@),
            finished: self.finished,
            winner: self.winner,
        }
    }
}

impl Default for Game {
    /// A fresh game.
    fn default() -> (game: Self)
        ensures
            game@ == GameState::initial(),
            game@.consistent(),
    {
        Self::new()
    }
}

impl Game {
    /// On a three by three grid, the cells of the vectors are the cells of
    /// the model.
    proof fn lemma_cells(&self)
        requires
            is_grid(self@.board),
        ensures
            self.board@.len() == 3,
            forall|x: int|
                0 <= x < 3 ==> (#[trigger] self.board@[x])@.len() == 3 && self.board@[x]@
                    == self@.board[x],
    {
        assert forall|x: int| 0 <= x < 3 implies (#[trigger] self.board@[x])@.len() == 3
            && self.board@[x]@ == self@.board[x] by {
            assert(self@.board[x].len() == 3);
        }
    }

    /// Tells whether the game is well formed. A game that was made by
    /// `new` and changed only through its operations always is; one whose
    /// fields were written to may not be, and the operations that need a
    /// well-formed game must not be called on it.
    pub fn is_well_formed(&self) -> (ok: bool)
        ensures
            ok == self@.wf(),
    {
        if self.board.len() != 3 {
            return false;
        }
        let mut x: usize = 0;
        while x < 3
            invariant
                0 <= x <= 3,
                self.board@.len() == 3,
                forall|i: int| 0 <= i < x ==> (#[trigger] self@.board[i]).len() == 3,
            decreases 3 - x,
        {
            if self.board[x].len() != 3 {
                assert(self@.board[x as int].len() != 3);
                return false;
            }
            x += 1;
        }
        self.pos_x <= 2 && self.pos_y <= 2 && self.current_player != Player::Empty
    }

    /// A fresh game.
    pub fn new() -> (game: Self)
        ensures
            game@ == GameState::initial(),
            game@.consistent(),
    {
        let board = vec![
            vec![Player::Empty, Player::Empty, Player::Empty],
            vec![Player::Empty, Player::Empty, Player::Empty],
            vec![Player::Empty, Player::Empty, Player::Empty],
        ];

        let game = Self {
            pos_x: 0,
            pos_y: 0,
            current_player: Player::Cross,
            board,
            finished: false,
            winner: Player::Empty,
        };
        proof {
            assert(game@.board =~~= empty_board());
            lemma_initial_is_consistent();
        }
        game
    }

    /// Starts over: whatever the game held, it is a fresh game afterwards.
    pub fn reset(&mut self)
        ensures
            final(self)@ == GameState::initial(),
            final(self)@.consistent(),
    {
        let board = vec![
            vec![Player::Empty, Player::Empty, Player::Empty],
            vec![Player::Empty, Player::Empty, Player::Empty],
            vec![Player::Empty, Player::Empty, Player::Empty],
        ];

        self.pos_x = 0;
        self.pos_y = 0;
        self.current_player = Player::Cross;
        self.board = board;
        self.finished = false;
        self.winner = Player::Empty;
        proof {
            assert(self@.board =~~= empty_board());
            lemma_initial_is_consistent();
        }
    }

    /// Moves the cursor one cell in the direction given. At the edge, and
    /// once the game is over, nothing happens.
    pub fn move_position(&mut self, mvmt: &Movement)
        ensures
            final(self)@ == old(self)@.moved(*mvmt),
            on_grid(old(self)@.pos_x, old(self)@.pos_y) ==> on_grid(
                final(self)@.pos_x,
                final(self)@.pos_y,
            ),
            old(self)@.wf() ==> final(self)@.wf(),
            old(self)@.consistent() ==> final(self)@.consistent(),
    {
        proof {
            lemma_moved_keeps_consistent(self@, *mvmt);
        }
        if self.finished {
            return ;
        }
        match mvmt {
            Movement::Up => {
                if self.pos_y != 0 {
                    self.pos_y -= 1;
                }
            },
            Movement::Down => {
                if self.pos_y < 2 {
                    self.pos_y += 1;
                }
            },
            Movement::Left => {
                if self.pos_x != 0 {
                    self.pos_x -= 1;
                }
            },
            Movement::Right => {
                if self.pos_x < 2 {
                    self.pos_x += 1;
                }
            },
        }
    }

    /// Places the mark of the player to move in the cell under the cursor.
    /// Once the game is over, and on a cell that holds a mark, nothing
    /// happens.
    pub fn enter_position(&mut self)
        requires
            old(self)@.wf(),
        ensures
            final(self)@ == old(self)@.placed(),
            final(self)@.wf(),
            !old(self)@.can_place() ==> final(self)@ == old(self)@,
            old(self)@.can_place() ==> final(self)@.current_player
                == old(self)@.current_player.opponent(),
            old(self)@.consistent() ==> final(self)@.consistent(),
    {
        proof {
            self.lemma_cells();
            if self@.consistent() {
                lemma_placed_keeps_consistent(self@);
            }
        }
        if !self.finished && self.board[self.pos_x][self.pos_y] == Player::Empty {
            self.board[self.pos_x][self.pos_y] = self.current_player;
            assert(self@.board =~~= put(
                old(self)@.board,
                old(self)@.pos_x,
                old(self)@.pos_y,
                old(self)@.current_player,
            ));
            self.switch_player();

            self.check_winner();
            self.check_stalemate();
        }
    }

    /// Where the game stands: who is to move, who has won, or that it is
    /// drawn.
    pub fn status(&self) -> (status: Status)
        ensures
            status == self@.status(),
    {
        if !self.finished {
            Status::Turn(self.current_player)
        } else if self.winner == Player::Empty {
            Status::Draw
        } else {
            Status::Won(self.winner)
        }
    }

    /// Hands the turn to the other player.
    fn switch_player(&mut self)
        ensures
            final(self)@ == old(self)@.switched(),
    {
        match self.current_player {
            Player::Cross => self.current_player = Player::Nought,
            Player::Nought => self.current_player = Player::Cross,
            Player::Empty => (),
        }
    }

    /// Examines the lines of the grid in their order: columns and rows in
    /// turn, then the two diagonals. The first complete line ends the game
    /// for its mark and sends the cursor back to the top left cell; where
    /// no line is complete nothing changes. `enter_position` does this
    /// after every mark.
    pub fn check_winner(&mut self)
        requires
            is_grid(old(self)@.board),
        ensures
            final(self)@ == old(self)@.decided(),
            forall|mark: Player|
                (#[trigger] holds_line(old(self)@.board, mark)) && only_lines_of(
                    old(self)@.board,
                    mark,
                ) ==> final(self)@ == (GameState {
                    winner: mark,
                    finished: true,
                    pos_x: 0,
                    pos_y: 0,
                    ..old(self)@
                }),
            !has_line(old(self)@.board) ==> final(self)@ == old(self)@,
            old(self)@.consistent() ==> final(self)@ == old(self)@,
    {
        proof {
            self.lemma_cells();
            lemma_no_winner_iff_no_line(self@.board);
            assert forall|mark: Player|
                (#[trigger] holds_line(self@.board, mark)) && only_lines_of(
                    self@.board,
                    mark,
                ) implies winner_of(self@.board) == mark by {
                lemma_only_mark_with_a_line_wins(self@.board, mark);
            }
        }
        let mut found = Player::Empty;
        let mut i: usize = 0;
        while i < 3
            invariant_except_break
                found == Player::Empty,
                forall|k: int| 0 <= k < 2 * i ==> line_mark(self@.board, k) == Player::Empty,
            invariant
                0 <= i <= 3,
                *self == *old(self),
                is_grid(self@.board),
            ensures
                found != Player::Empty ==> found == winner_of(self@.board),
                found == Player::Empty ==> forall|k: int|
                    0 <= k < 6 ==> line_mark(self@.board, k) == Player::Empty,
            decreases 3 - i,
        {
            proof {
                self.lemma_cells();
            }
            let b = &self.board;
            if b[i][0] != Player::Empty && b[i][0] == b[i][1] && b[i][1] == b[i][2] {
                found = b[i][0];
                proof {
                    lemma_first_complete_line_wins(self@.board, 2 * i);
                }
                break ;
            }
            if b[0][i] != Player::Empty && b[0][i] == b[1][i] && b[1][i] == b[2][i] {
                found = b[0][i];
                proof {
                    lemma_first_complete_line_wins(self@.board, 2 * i + 1);
                }
                break ;
            }
            i += 1;
        }

        if found == Player::Empty {
            let b = &self.board;
            if b[0][0] != Player::Empty && b[0][0] == b[1][1] && b[1][1] == b[2][2] {
                found = b[0][0];
                proof {
                    lemma_first_complete_line_wins(self@.board, 6);
                }
            } else if b[0][2] != Player::Empty && b[0][2] == b[1][1] && b[1][1] == b[2][0] {
                found = b[0][2];
                proof {
                    lemma_first_complete_line_wins(self@.board, 7);
                }
            } else {
                proof {
                    lemma_no_winner_iff_no_line(self@.board);
                }
            }
        }
        assert(found == winner_of(self@.board));

        if found != Player::Empty {
            self.winner = found;
            self.finished = true;
            self.pos_x = 0;
            self.pos_y = 0;
        }
    }

    /// Ends the game as a draw where nobody has won and no cell is empty,
    /// and sends the cursor back to the top left cell; a game with a
    /// winner, and one with an empty cell, stays as it is. `enter_position`
    /// does this after every mark, once the lines have been examined.
    pub fn check_stalemate(&mut self)
        requires
            is_grid(old(self)@.board),
        ensures
            final(self)@ == old(self)@.drawn(),
            old(self)@.winner != Player::Empty ==> final(self)@ == old(self)@,
            !is_full(old(self)@.board) ==> final(self)@ == old(self)@,
            old(self)@.winner == Player::Empty && is_full(old(self)@.board) ==> final(self)@
                == (GameState { finished: true, pos_x: 0, pos_y: 0, ..old(self)@ }),
            old(self)@.consistent() ==> final(self)@ == old(self)@,
    {
        if self.winner != Player::Empty {
            return ;
        }
        proof {
            self.lemma_cells();
        }
        let mut x: usize = 0;
        while x < 3
            invariant
                0 <= x <= 3,
                *self == *old(self),
                is_grid(self@.board),
                forall|i: int, j: int|
                    0 <= i < x && 0 <= j < 3 ==> (#[trigger] self@.board[i][j]) != Player::Empty,
            decreases 3 - x,
        {
            let mut y: usize = 0;
            while y < 3
                invariant
                    0 <= x < 3,
                    0 <= y <= 3,
                    *self == *old(self),
                    is_grid(self@.board),
                    forall|i: int, j: int|
                        0 <= i < x && 0 <= j < 3 ==> (#[trigger] self@.board[i][j])
                            != Player::Empty,
                    forall|j: int|
                        0 <= j < y ==> (#[trigger] self@.board[x as int][j]) != Player::Empty,
                decreases 3 - y,
            {
                proof {
                    self.lemma_cells();
                }
                if self.board[x][y] == Player::Empty {
                    return ;
                }
                y += 1;
            }
            x += 1;
        }

        self.finished = true;
        self.pos_x = 0;
        self.pos_y = 0;
    }
}

} // verus!
