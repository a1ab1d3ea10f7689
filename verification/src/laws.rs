//! What holds of every game: the laws of single operations and of whole
//! sequences of commands.

use crate::board::{
    count, empty_board, has_line, holds_line, is_full, is_grid, keeps_marks,
    lemma_no_winner_iff_no_line, lemma_only_mark_with_a_line_wins,
    lemma_put_changes_lines_for_mark_only, lemma_put_counts, lemma_winner_holds_a_line,
    line_count, line_mark, on_grid, only_lines_of, put, winner_of,
};
use crate::control::Command;
use crate::game::{GameState, Movement};
use crate::player::Player;
use vstd::prelude::*;

verus! {

/// The nearest coordinate on the grid.
pub open spec fn clamp(v: int) -> int {
    if v < 0 {
        0
    } else if v > 2 {
        2
    } else {
        v
    }
}

/// A fresh game is well formed, and its grid and its result agree: no
/// line is complete, no cell is marked, nobody has won.
pub proof fn lemma_initial_is_consistent()
    ensures
        GameState::initial().wf(),
        GameState::initial().consistent(),
        !has_line(empty_board()),
        !is_full(empty_board()),
{
    let board = empty_board();
    assert forall|k: int| 0 <= k < line_count() implies #[trigger] line_mark(board, k)
        == Player::Empty by {}
    lemma_no_winner_iff_no_line(board);
    assert(on_grid(0, 0) && board[0][0] == Player::Empty);
}

/// Moving the cursor keeps a well-formed game well formed, and keeps grid
/// and result in agreement; it changes nothing but the cursor.
pub proof fn lemma_moved_keeps_consistent(state: GameState, direction: Movement)
    ensures
        state.wf() ==> state.moved(direction).wf(),
        state.consistent() ==> state.moved(direction).consistent(),
        state.moved(direction) == (GameState {
            pos_x: state.moved(direction).pos_x,
            pos_y: state.moved(direction).pos_y,
            ..state
        }),
{
}

/// Placing a mark keeps a well-formed game well formed.
pub proof fn lemma_placed_keeps_wf(state: GameState)
    requires
        state.wf(),
    ensures
        state.placed().wf(),
{
    if state.can_place() {
        let board = put(state.board, state.pos_x, state.pos_y, state.current_player);
        assert(is_grid(board));
    }
}

/// Placing a mark keeps grid and result in agreement. Where the mark
/// completes a line, the player who placed it has won.
pub proof fn lemma_placed_keeps_consistent(state: GameState)
    requires
        state.consistent(),
    ensures
        state.placed().consistent(),
        state.can_place() && has_line(state.placed().board) ==> state.placed().winner
            == state.current_player,
{
    lemma_placed_keeps_wf(state);
    if state.can_place() {
        let mark = state.current_player;
        let board = put(state.board, state.pos_x, state.pos_y, mark);
        assert(state.placed().board == board);
        lemma_no_winner_iff_no_line(state.board);
        lemma_no_winner_iff_no_line(board);
        lemma_put_counts(state.board, state.pos_x, state.pos_y, mark);
        assert forall|k: int| 0 <= k < line_count() implies #[trigger] line_mark(board, k)
            == Player::Empty || line_mark(board, k) == mark by {
            assert(line_mark(state.board, k) == Player::Empty);
            lemma_put_changes_lines_for_mark_only(state.board, state.pos_x, state.pos_y, mark, k);
        }
        if winner_of(board) != Player::Empty {
            lemma_winner_holds_a_line(board);
        }
    }
}

impl GameState {
    /// The state after a sequence of commands, carried out in order.
    pub open spec fn run(self, commands: Seq<Command>) -> GameState
        decreases commands.len(),
    {
        if commands.len() == 0 {
            self
        } else {
            self.run(commands.drop_last()).step(commands.last())
        }
    }
}

/// No command breaks a game: a well-formed game stays well formed, and
/// where grid and result agree they still agree afterwards.
pub proof fn lemma_step_keeps_consistent(state: GameState, command: Command)
    ensures
        state.wf() ==> state.step(command).wf(),
        state.consistent() ==> state.step(command).consistent(),
{
    lemma_initial_is_consistent();
    match command {
        Command::Quit => {},
        Command::Reset => {},
        Command::Move(direction) => {
            lemma_moved_keeps_consistent(state, direction);
        },
        Command::Place => {
            if state.wf() {
                lemma_placed_keeps_wf(state);
            }
            if state.consistent() {
                lemma_placed_keeps_consistent(state);
            }
        },
    }
}

/// No sequence of commands breaks a game, however long it is.
pub proof fn lemma_run_keeps_consistent(state: GameState, commands: Seq<Command>)
    ensures
        state.wf() ==> state.run(commands).wf(),
        state.consistent() ==> state.run(commands).consistent(),
    decreases commands.len(),
{
    if commands.len() > 0 {
        lemma_run_keeps_consistent(state, commands.drop_last());
        lemma_step_keeps_consistent(state.run(commands.drop_last()), commands.last());
    }
}

/// The cursor never leaves the grid: whatever commands a game is given,
/// in whatever number and order, a cursor that was on one of the nine
/// cells is on one of them afterwards.
pub proof fn lemma_cursor_stays_on_grid(state: GameState, commands: Seq<Command>)
    requires
        on_grid(state.pos_x, state.pos_y),
    ensures
        on_grid(state.run(commands).pos_x, state.run(commands).pos_y),
    decreases commands.len(),
{
    if commands.len() > 0 {
        lemma_cursor_stays_on_grid(state, commands.drop_last());
    }
}

/// A move of the cursor on the grid is a step of one cell that is held
/// back at the edge: the coordinate becomes the one next to it in the
/// direction given, or stays where that one would be off the grid.
pub proof fn lemma_moved_is_clamped(state: GameState, direction: Movement)
    requires
        on_grid(state.pos_x, state.pos_y),
        !state.finished,
    ensures
        direction == Movement::Up ==> state.moved(direction).pos_y == clamp(state.pos_y - 1)
            && state.moved(direction).pos_x == state.pos_x,
        direction == Movement::Down ==> state.moved(direction).pos_y == clamp(state.pos_y + 1)
            && state.moved(direction).pos_x == state.pos_x,
        direction == Movement::Left ==> state.moved(direction).pos_x == clamp(state.pos_x - 1)
            && state.moved(direction).pos_y == state.pos_y,
        direction == Movement::Right ==> state.moved(direction).pos_x == clamp(state.pos_x + 1)
            && state.moved(direction).pos_y == state.pos_y,
{
}

/// A placement that cannot be made changes nothing: once the game is over,
/// and on a cell that holds a mark, the state stays exactly as it is.
pub proof fn lemma_blocked_placement_changes_nothing(state: GameState)
    requires
        state.finished || state.board[state.pos_x][state.pos_y] != Player::Empty,
    ensures
        state.placed() == state,
{
}

/// A placement passes the turn on exactly once: afterwards the other
/// player is to move, whether the game has ended or not, and the cell
/// under the cursor holds the mark of the player who moved.
pub proof fn lemma_placement_passes_turn(state: GameState)
    requires
        state.wf(),
        state.can_place(),
    ensures
        state.placed().current_player == state.current_player.opponent(),
        state.placed().current_player != state.current_player,
        state.placed().current_player != Player::Empty,
        state.placed().current_player.opponent() == state.current_player,
        state.placed().board == put(state.board, state.pos_x, state.pos_y, state.current_player),
        state.placed().board[state.pos_x][state.pos_y] == state.current_player,
{
}

/// A game that is over stays as it is until it is started over: quitting,
/// moving the cursor and placing a mark all leave it unchanged.
pub proof fn lemma_finished_game_is_frozen(state: GameState, command: Command)
    requires
        state.finished,
        command != Command::Reset,
    ensures
        state.step(command) == state,
{
}

/// A mark, once placed, stays: no command but the one to start over
/// removes or replaces a mark on the grid.
pub proof fn lemma_marks_stay(state: GameState, command: Command)
    requires
        state.wf(),
        command != Command::Reset,
    ensures
        keeps_marks(state.board, state.step(command).board),
{
    lemma_step_keeps_consistent(state, command);
}

/// The examination for a winner names the mark that holds a line: where
/// one mark holds a complete row, column or diagonal and no other mark
/// does, that mark has won, the game is over and the cursor is back in the
/// top left cell; grid and turn stay as they are.
pub proof fn lemma_examination_names_the_winner(state: GameState, mark: Player)
    requires
        holds_line(state.board, mark),
        only_lines_of(state.board, mark),
    ensures
        state.decided() == (GameState {
            winner: mark,
            finished: true,
            pos_x: 0,
            pos_y: 0,
            ..state
        }),
{
    lemma_only_mark_with_a_line_wins(state.board, mark);
}

/// The examination for a winner changes nothing where no line is
/// complete: the winner and the game go on as they were.
pub proof fn lemma_examination_without_line_changes_nothing(state: GameState)
    requires
        !has_line(state.board),
    ensures
        state.decided() == state,
{
    lemma_no_winner_iff_no_line(state.board);
}

/// The examination for a draw ends a game on a full grid that nobody has
/// won: the game is over, still without a winner, and the cursor is back
/// in the top left cell; grid and turn stay as they are.
pub proof fn lemma_full_grid_without_winner_is_drawn(state: GameState)
    requires
        is_full(state.board),
        state.winner == Player::Empty,
    ensures
        state.drawn() == (GameState { finished: true, pos_x: 0, pos_y: 0, ..state }),
        state.drawn().winner == Player::Empty,
{
}

/// The examination for a draw never takes a win away: a game with a
/// winner stays exactly as it is, even on a full grid, and so does a game
/// with an empty cell.
pub proof fn lemma_draw_keeps_a_winner(state: GameState)
    requires
        state.winner != Player::Empty || !is_full(state.board),
    ensures
        state.drawn() == state,
{
}

/// A mark that completes a line wins, also where it fills the last cell:
/// after such a placement the game is over and the player who placed the
/// mark is the winner.
pub proof fn lemma_completing_a_line_wins(state: GameState)
    requires
        state.consistent(),
        state.can_place(),
        has_line(put(state.board, state.pos_x, state.pos_y, state.current_player)),
    ensures
        state.placed().finished,
        state.placed().winner == state.current_player,
        state.placed().pos_x == 0 && state.placed().pos_y == 0,
{
    lemma_placed_keeps_consistent(state);
}

/// A mark that fills the grid without completing a line draws the game:
/// after such a placement the game is over and nobody has won.
pub proof fn lemma_filling_the_grid_without_line_draws(state: GameState)
    requires
        state.consistent(),
        state.can_place(),
        is_full(put(state.board, state.pos_x, state.pos_y, state.current_player)),
        !has_line(put(state.board, state.pos_x, state.pos_y, state.current_player)),
    ensures
        state.placed().finished,
        state.placed().winner == Player::Empty,
        state.placed().pos_x == 0 && state.placed().pos_y == 0,
{
    lemma_placed_keeps_consistent(state);
    lemma_no_winner_iff_no_line(state.placed().board);
}

/// A complete line decides the game: in every game that commands have led
/// to from a fresh one, a line of three equal marks means that the game is
/// over and that this mark has won.
pub proof fn lemma_complete_line_decides(commands: Seq<Command>, k: int)
    requires
        0 <= k < line_count(),
        line_mark(GameState::initial().run(commands).board, k) != Player::Empty,
    ensures
        GameState::initial().run(commands).finished,
        GameState::initial().run(commands).winner == line_mark(
            GameState::initial().run(commands).board,
            k,
        ),
{
    lemma_initial_is_consistent();
    lemma_run_keeps_consistent(GameState::initial(), commands);
}

/// A full grid without a line is a draw: in every game that commands have
/// led to from a fresh one, a grid with no empty cell and no complete line
/// means that the game is over and that nobody has won.
pub proof fn lemma_full_grid_without_line_is_draw(commands: Seq<Command>)
    requires
        is_full(GameState::initial().run(commands).board),
        !has_line(GameState::initial().run(commands).board),
    ensures
        GameState::initial().run(commands).finished,
        GameState::initial().run(commands).winner == Player::Empty,
{
    lemma_initial_is_consistent();
    lemma_run_keeps_consistent(GameState::initial(), commands);
    lemma_no_winner_iff_no_line(GameState::initial().run(commands).board);
}

/// A game is over exactly when its grid says so: in every game that
/// commands have led to from a fresh one, the game has ended if and only
/// if a line is complete or no cell is empty.
pub proof fn lemma_finished_iff_grid_decided(commands: Seq<Command>)
    ensures
        GameState::initial().run(commands).finished <==> has_line(
            GameState::initial().run(commands).board,
        ) || is_full(GameState::initial().run(commands).board),
        GameState::initial().run(commands).winner == winner_of(
            GameState::initial().run(commands).board,
        ),
{
    lemma_initial_is_consistent();
    lemma_run_keeps_consistent(GameState::initial(), commands);
}

/// The players take turns: in every game that commands have led to from a
/// fresh one, `Cross` has placed as many marks as `Nought` when `Cross` is
/// to move, and one more when `Nought` is.
pub proof fn lemma_players_take_turns(commands: Seq<Command>)
    ensures
        GameState::initial().run(commands).current_player == Player::Cross ==> count(
            GameState::initial().run(commands).board,
            Player::Cross,
        ) == count(GameState::initial().run(commands).board, Player::Nought),
        GameState::initial().run(commands).current_player == Player::Nought ==> count(
            GameState::initial().run(commands).board,
            Player::Cross,
        ) == count(GameState::initial().run(commands).board, Player::Nought) + 1,
        GameState::initial().run(commands).current_player != Player::Empty,
{
    lemma_initial_is_consistent();
    lemma_run_keeps_consistent(GameState::initial(), commands);
}

/// Starting over restores the fresh game exactly, whatever the state was
/// before and whatever commands came before it.
pub proof fn lemma_reset_restores_initial(state: GameState, commands: Seq<Command>)
    ensures
        state.step(Command::Reset) == GameState::initial(),
        state.run(commands.push(Command::Reset)) == GameState::initial(),
        state.step(Command::Reset).step(Command::Reset) == state.step(Command::Reset),
{
    assert(commands.push(Command::Reset).drop_last() == commands);
}

} // verus!
