//! The grid as a mathematical value: its cells, its eight lines, and what
//! it means for it to be won or full.

use crate::player::Player;
use vstd::prelude::*;

verus! {

/// The grid as a sequence of columns: `board[x][y]` is the cell in column
/// `x` and row `y`.
pub type Board = Seq<Seq<Player>>;

/// The number of lines on the grid: three columns, three rows, two
/// diagonals.
pub open spec fn line_count() -> int {
    8
}

/// Three columns of three cells each.
pub open spec fn is_grid(board: Board) -> bool {
    &&& board.len() == 3
    &&& forall|x: int| 0 <= x < 3 ==> (#[trigger] board[x]).len() == 3
}

/// Both coordinates lie on the grid.
pub open spec fn on_grid(x: int, y: int) -> bool {
    0 <= x <= 2 && 0 <= y <= 2
}

/// The grid without any mark.
pub open spec fn empty_board() -> Board {
    Seq::new(3, |x: int| Seq::new(3, |y: int| Player::Empty))
}

/// The grid `board` with `mark` written into column `x`, row `y`.
pub open spec fn put(board: Board, x: int, y: int, mark: Player) -> Board {
    board.update(x, board[x].update(y, mark))
}

/// Cell `j` (0, 1 or 2) of line `k`, as column and row.
///
/// Lines are numbered in the order in which they are examined: column 0,
/// row 0, column 1, row 1, column 2, row 2, the diagonal from the top
/// left, the diagonal from the top right.
pub open spec fn line_cell(k: int, j: int) -> (int, int) {
    if k == 6 {
        (j, j)
    } else if k == 7 {
        (j, 2 - j)
    } else if k % 2 == 0 {
        (k / 2, j)
    } else {
        (j, k / 2)
    }
}

/// The mark in cell `j` of line `k`.
pub open spec fn mark_on_line(board: Board, k: int, j: int) -> Player {
    board[line_cell(k, j).0][line_cell(k, j).1]
}

/// The mark that holds all three cells of line `k`, or `Empty` where the
/// line is not complete.
pub open spec fn line_mark(board: Board, k: int) -> Player {
    let first = mark_on_line(board, k, 0);
    if first == mark_on_line(board, k, 1) && first == mark_on_line(board, k, 2) {
        first
    } else {
        Player::Empty
    }
}

/// The mark of the first complete line among the lines `k`, `k + 1`, ...,
/// or `Empty` where none of them is complete.
pub open spec fn first_line_from(board: Board, k: int) -> Player
    decreases line_count() - k,
{
    if k >= line_count() {
        Player::Empty
    } else if line_mark(board, k) != Player::Empty {
        line_mark(board, k)
    } else {
        first_line_from(board, k + 1)
    }
}

/// The winner that the grid shows: the mark of the first complete line in
/// the order of examination, or `Empty` where no line is complete.
pub open spec fn winner_of(board: Board) -> Player {
    first_line_from(board, 0)
}

/// Some line of the grid is complete.
pub open spec fn has_line(board: Board) -> bool {
    exists|k: int| 0 <= k < line_count() && line_mark(board, k) != Player::Empty
}

/// Some line of the grid is complete with `mark`.
pub open spec fn holds_line(board: Board, mark: Player) -> bool {
    mark != Player::Empty && exists|k: int|
        0 <= k < line_count() && #[trigger] line_mark(board, k) == mark
}

/// No line of the grid is complete with a mark other than `mark`.
pub open spec fn only_lines_of(board: Board, mark: Player) -> bool {
    forall|k: int|
        0 <= k < line_count() ==> #[trigger] line_mark(board, k) == Player::Empty || line_mark(
            board,
            k,
        ) == mark
}

/// No cell of the grid is empty.
pub open spec fn is_full(board: Board) -> bool {
    forall|x: int, y: int| on_grid(x, y) ==> (#[trigger] board[x][y]) != Player::Empty
}

/// 1 where the cell in column `x`, row `y` holds `mark`, 0 where it does
/// not.
pub open spec fn one_if_marked(board: Board, x: int, y: int, mark: Player) -> int {
    if board[x][y] == mark {
        1
    } else {
        0
    }
}

/// The number of cells in column `x` that hold `mark`.
pub open spec fn count_in_column(board: Board, x: int, mark: Player) -> int {
    one_if_marked(board, x, 0, mark) + one_if_marked(board, x, 1, mark) + one_if_marked(
        board,
        x,
        2,
        mark,
    )
}

/// The number of cells of the grid that hold `mark`.
pub open spec fn count(board: Board, mark: Player) -> int {
    count_in_column(board, 0, mark) + count_in_column(board, 1, mark) + count_in_column(
        board,
        2,
        mark,
    )
}

/// Every mark on `before` stands in the same cell of `after`.
pub open spec fn keeps_marks(before: Board, after: Board) -> bool {
    forall|x: int, y: int|
        on_grid(x, y) && (#[trigger] before[x][y]) != Player::Empty ==> after[x][y]
            == before[x][y]
}

/// Where the lines before `k` are all incomplete and line `k` is complete,
/// the winner is the mark of line `k`.
pub proof fn lemma_first_complete_line_wins(board: Board, k: int)
    requires
        0 <= k < line_count(),
        forall|j: int| 0 <= j < k ==> line_mark(board, j) == Player::Empty,
        line_mark(board, k) != Player::Empty,
    ensures
        winner_of(board) == line_mark(board, k),
{
    reveal_with_fuel(first_line_from, 9);
}

/// The grid shows no winner exactly when none of its lines is complete.
pub proof fn lemma_no_winner_iff_no_line(board: Board)
    ensures
        winner_of(board) == Player::Empty <==> !has_line(board),
{
    reveal_with_fuel(first_line_from, 9);
    if winner_of(board) == Player::Empty {
        assert forall|k: int| 0 <= k < line_count() implies line_mark(board, k)
            == Player::Empty by {}
    } else {
        lemma_winner_holds_a_line(board);
    }
}

/// A winner holds a complete line.
pub proof fn lemma_winner_holds_a_line(board: Board)
    requires
        winner_of(board) != Player::Empty,
    ensures
        exists|k: int|
            0 <= k < line_count() && #[trigger] line_mark(board, k) == winner_of(board),
{
    reveal_with_fuel(first_line_from, 9);
    let k = if line_mark(board, 0) != Player::Empty {
        0int
    } else if line_mark(board, 1) != Player::Empty {
        1int
    } else if line_mark(board, 2) != Player::Empty {
        2int
    } else if line_mark(board, 3) != Player::Empty {
        3int
    } else if line_mark(board, 4) != Player::Empty {
        4int
    } else if line_mark(board, 5) != Player::Empty {
        5int
    } else if line_mark(board, 6) != Player::Empty {
        6int
    } else {
        7int
    };
    assert(line_mark(board, k) == winner_of(board));
}

/// Where one mark alone has complete lines, it is the winner, whichever of
/// its lines is examined first.
pub proof fn lemma_only_mark_with_a_line_wins(board: Board, mark: Player)
    requires
        holds_line(board, mark),
        only_lines_of(board, mark),
    ensures
        winner_of(board) == mark,
        has_line(board),
{
    lemma_no_winner_iff_no_line(board);
    lemma_winner_holds_a_line(board);
}

/// Writing a mark into an empty cell completes no line for anyone else: a
/// line that was complete stays as it was, and a line that is complete
/// afterwards and was not before belongs to the mark just written.
pub proof fn lemma_put_changes_lines_for_mark_only(
    board: Board,
    x: int,
    y: int,
    mark: Player,
    k: int,
)
    requires
        is_grid(board),
        on_grid(x, y),
        board[x][y] == Player::Empty,
        0 <= k < line_count(),
    ensures
        line_mark(board, k) != Player::Empty ==> line_mark(put(board, x, y, mark), k)
            == line_mark(board, k),
        line_mark(board, k) == Player::Empty ==> line_mark(put(board, x, y, mark), k)
            == Player::Empty || line_mark(put(board, x, y, mark), k) == mark,
{
    let after = put(board, x, y, mark);
    assert forall|j: int| 0 <= j < 3 implies #[trigger] mark_on_line(after, k, j) == if line_cell(
        k,
        j,
    ) == (x, y) {
        mark
    } else {
        mark_on_line(board, k, j)
    } by {}
}

/// Writing a mark into an empty cell adds one to the number of cells that
/// hold this mark and leaves the number for the other player as it was.
pub proof fn lemma_put_counts(board: Board, x: int, y: int, mark: Player)
    requires
        is_grid(board),
        on_grid(x, y),
        board[x][y] == Player::Empty,
        mark != Player::Empty,
    ensures
        count(put(board, x, y, mark), mark) == count(board, mark) + 1,
        count(put(board, x, y, mark), mark.opponent()) == count(board, mark.opponent()),
{
    let after = put(board, x, y, mark);
    assert forall|i: int, j: int| on_grid(i, j) implies #[trigger] after[i][j] == if i == x && j
        == y {
        mark
    } else {
        board[i][j]
    } by {}
    assert(on_grid(0, 0) && on_grid(0, 1) && on_grid(0, 2));
    assert(on_grid(1, 0) && on_grid(1, 1) && on_grid(1, 2));
    assert(on_grid(2, 0) && on_grid(2, 1) && on_grid(2, 2));
}

} // verus!
