//! The win evaluator: pure queries over a board snapshot.
//!
//! A *run* is a maximal contiguous sequence of cells along one of the four
//! line directions (horizontal, vertical, diagonal down-right, diagonal
//! down-left) holding the same non-empty color. Order wins with a run of
//! length exactly five: a maximal run of six or more does not count and
//! does not contain a qualifying sub-run. The board does not wrap, so a run
//! ends at the grid's edge.
//!
//! [`has_qualifying_run`] decides whether a qualifying run exists anywhere;
//! [`order_can_still_win`] decides whether the game is not yet lost for
//! Order, in the guaranteed minimal sense: once the board is full without a
//! qualifying run, Order cannot win. The caller derives the winner from the
//! two queries; [`evaluate_game_state`] performs that derivation.

use vstd::prelude::*;
use vstd::set_lib::{lemma_int_range, lemma_len_subset, set_int_range};

use crate::board::{board_full, cell, cell_index, in_bounds, num_nonempty, Board, SIZE};
use crate::model::{Piece, Role};
use crate::state::GameState;

verus! {

/// Row step of direction `d`: the four directions are `0` horizontal,
/// `1` vertical, `2` diagonal down-right, `3` diagonal down-left.
pub open spec fn delta_row(d: int) -> int {
    if d == 0 {
        0
    } else {
        1
    }
}

/// Column step of direction `d` (see [`delta_row`] for the numbering).
pub open spec fn delta_col(d: int) -> int {
    if d == 0 || d == 2 {
        1
    } else if d == 3 {
        -1
    } else {
        0
    }
}

/// Whether the cell `k` steps along direction `d` from `(row, col)` lies on
/// the grid and holds `p`.
pub open spec fn run_cell_ok(s: Seq<Piece>, row: int, col: int, d: int, k: int, p: Piece) -> bool {
    &&& in_bounds(row + k * delta_row(d), col + k * delta_col(d))
    &&& cell(s, row + k * delta_row(d), col + k * delta_col(d)) == p
}

/// Whether a maximal run of length exactly five starts at `(row, col)` in
/// direction `d`: five like-colored non-empty cells in a line, while the
/// cell before the first and the cell after the fifth each either lie off
/// the grid or hold something else.
pub open spec fn exact_run_from(s: Seq<Piece>, row: int, col: int, d: int) -> bool {
    let p = cell(s, row, col);
    &&& in_bounds(row, col)
    &&& p != Piece::Empty
    &&& run_cell_ok(s, row, col, d, 1, p)
    &&& run_cell_ok(s, row, col, d, 2, p)
    &&& run_cell_ok(s, row, col, d, 3, p)
    &&& run_cell_ok(s, row, col, d, 4, p)
    &&& !run_cell_ok(s, row, col, d, -1, p)
    &&& !run_cell_ok(s, row, col, d, 5, p)
}

/// Whether some maximal run of length exactly five exists anywhere on the
/// board, in any of the four directions.
pub open spec fn has_exact_five(s: Seq<Piece>) -> bool {
    exists|row: int, col: int, d: int| 0 <= d < 4 && exact_run_from(s, row, col, d)
}

/// Whether Order has not yet lost: false exactly when the board is full
/// and no qualifying run exists.
pub open spec fn order_win_open(s: Seq<Piece>) -> bool {
    has_exact_five(s) || !board_full(s)
}

/// A board on which every cell is empty has no qualifying run: a run needs
/// a non-empty first cell.
pub proof fn lemma_empty_board_no_run(s: Seq<Piece>)
    requires
        s.len() == SIZE * SIZE,
        forall|i: int| 0 <= i < s.len() ==> s[i] == Piece::Empty,
    ensures
        !has_exact_five(s),
{
    if has_exact_five(s) {
        let (row, col, d) = choose|row: int, col: int, d: int|
            0 <= d < 4 && exact_run_from(s, row, col, d);
        assert(0 <= cell_index(row, col) < s.len());
    }
}

/// A board holding fewer than five distinct non-empty in-bounds positions
/// has at least five once it holds a qualifying run: the run's five cells
/// are pairwise distinct members of the set of non-empty positions.
proof fn lemma_five_nonempty_cells(s: Seq<Piece>, i0: int, i1: int, i2: int, i3: int, i4: int)
    requires
        s.len() == SIZE * SIZE,
        0 <= i0 < i1 < i2 < i3 < i4 < s.len(),
        s[i0] != Piece::Empty,
        s[i1] != Piece::Empty,
        s[i2] != Piece::Empty,
        s[i3] != Piece::Empty,
        s[i4] != Piece::Empty,
    ensures
        num_nonempty(s) >= 5,
{
    let ne = Set::new(|i: int| 0 <= i < s.len() && s[i] != Piece::Empty);
    lemma_int_range(0, s.len() as int);
    assert(ne.subset_of(set_int_range(0, s.len() as int)));
    lemma_len_subset(ne, set_int_range(0, s.len() as int));
    let n1 = ne.remove(i0);
    let n2 = n1.remove(i1);
    let n3 = n2.remove(i2);
    let n4 = n3.remove(i3);
    vstd::set::axiom_set_remove_len(ne, i0);
    vstd::set::axiom_set_remove_len(n1, i1);
    vstd::set::axiom_set_remove_len(n2, i2);
    vstd::set::axiom_set_remove_len(n3, i3);
    vstd::set::axiom_set_remove_len(n4, i4);
    assert(ne.contains(i0) && ne.contains(i1) && ne.contains(i2) && ne.contains(i3) && ne.contains(
        i4,
    ));
    assert(n4.contains(i4));
    assert(n4.remove(i4).len() >= 0);
}

/// Fewer than five non-empty cells leave no room for a qualifying run: a
/// board with `num_nonempty` below five - the empty board among them - has
/// none. With `has_qualifying_run`'s contract this makes the evaluator
/// return false on every such board.
pub proof fn lemma_few_pieces_no_run(s: Seq<Piece>)
    requires
        s.len() == SIZE * SIZE,
        num_nonempty(s) < 5,
    ensures
        !has_exact_five(s),
{
    if has_exact_five(s) {
        let (row, col, d) = choose|row: int, col: int, d: int|
            0 <= d < 4 && exact_run_from(s, row, col, d);
        let dr = delta_row(d);
        let dc = delta_col(d);
        let step = (SIZE as int) * dr + dc;
        assert(step >= 1);
        let i0 = cell_index(row, col);
        let i1 = cell_index(row + 1 * dr, col + 1 * dc);
        let i2 = cell_index(row + 2 * dr, col + 2 * dc);
        let i3 = cell_index(row + 3 * dr, col + 3 * dc);
        let i4 = cell_index(row + 4 * dr, col + 4 * dc);
        assert(i1 == i0 + step && i2 == i1 + step && i3 == i2 + step && i4 == i3 + step);
        lemma_five_nonempty_cells(s, i0, i1, i2, i3, i4);
    }
}

/// Any maximal horizontal run of exactly five is a qualifying run: five
/// equal non-empty cells in one row whose neighbors on each side, if on
/// the grid at all, hold something else make `has_exact_five` true. The
/// same placement read through `has_qualifying_run`'s contract makes the
/// evaluator report a win for Order.
pub proof fn lemma_horizontal_five_qualifies(s: Seq<Piece>, row: int, col: int)
    requires
        s.len() == SIZE * SIZE,
        in_bounds(row, col),
        in_bounds(row, col + 4),
        cell(s, row, col) != Piece::Empty,
        cell(s, row, col + 1) == cell(s, row, col),
        cell(s, row, col + 2) == cell(s, row, col),
        cell(s, row, col + 3) == cell(s, row, col),
        cell(s, row, col + 4) == cell(s, row, col),
        !(in_bounds(row, col - 1) && cell(s, row, col - 1) == cell(s, row, col)),
        !(in_bounds(row, col + 5) && cell(s, row, col + 5) == cell(s, row, col)),
    ensures
        has_exact_five(s),
{
    assert(exact_run_from(s, row, col, 0));
}

/// Whether a maximal horizontal run of length exactly six starts at
/// `(row, col)`: six equal non-empty cells in one row, closed off on both
/// sides by the grid's edge or by a different cell.
pub open spec fn six_run_horizontal(s: Seq<Piece>, row: int, col: int) -> bool {
    let p = cell(s, row, col);
    &&& in_bounds(row, col)
    &&& in_bounds(row, col + 5)
    &&& p != Piece::Empty
    &&& cell(s, row, col + 1) == p
    &&& cell(s, row, col + 2) == p
    &&& cell(s, row, col + 3) == p
    &&& cell(s, row, col + 4) == p
    &&& cell(s, row, col + 5) == p
    &&& !(in_bounds(row, col - 1) && cell(s, row, col - 1) == p)
    &&& !(in_bounds(row, col + 6) && cell(s, row, col + 6) == p)
}

/// A maximal horizontal run of exactly six does not qualify and does not
/// hide a qualifying sub-run of five: on a board whose only candidate runs
/// lie inside such a six-run, `has_exact_five` is false. A five-window
/// inside the six-run always touches a sixth equal cell on one side, so it
/// is never maximal.
pub proof fn lemma_six_run_not_qualifying(s: Seq<Piece>, row: int, col: int)
    requires
        s.len() == SIZE * SIZE,
        six_run_horizontal(s, row, col),
        forall|r2: int, c2: int, d2: int|
            0 <= d2 < 4 && #[trigger] exact_run_from(s, r2, c2, d2) ==> d2 == 0 && r2 == row && col
                <= c2 && c2 + 5 <= col + 6,
    ensures
        !has_exact_five(s),
{
    if has_exact_five(s) {
        let (r2, c2, d2) = choose|r2: int, c2: int, d2: int|
            0 <= d2 < 4 && exact_run_from(s, r2, c2, d2);
        let p = cell(s, row, col);
        assert(d2 == 0 && r2 == row && (c2 == col || c2 == col + 1));
        if c2 == col {
            assert(run_cell_ok(s, r2, c2, 0, 5, cell(s, r2, c2)));
        } else {
            assert(run_cell_ok(s, r2, c2, 0, -1, cell(s, r2, c2)));
        }
    }
}

/// On a completely full board without a qualifying run, Order can no
/// longer win: `order_win_open` is false there, and with its contract
/// `order_can_still_win` returns false on every such board.
pub proof fn lemma_full_without_run_is_chaos_win(s: Seq<Piece>)
    requires
        board_full(s),
        !has_exact_five(s),
    ensures
        !order_win_open(s),
{
}

/// Tests one cell of a candidate run: whether the cell `k` steps along
/// direction `d` from `(row, col)` is on the grid and holds `p`.
fn run_cell_matches(board: &Board, row: usize, col: usize, d: usize, k: i32, p: Piece) -> (m: bool)
    requires
        board.wf(),
        row < SIZE,
        col < SIZE,
        d < 4,
        -1 <= k <= 5,
    ensures
        m == run_cell_ok(board@, row as int, col as int, d as int, k as int, p),
{
    let dr: i32 = if d == 0 {
        0
    } else {
        1
    };
    let dc: i32 = if d == 0 || d == 2 {
        1
    } else if d == 3 {
        -1
    } else {
        0
    };
    let rr: i32 = row as i32 + k * dr;
    let cc: i32 = col as i32 + k * dc;
    if 0 <= rr && rr < SIZE as i32 && 0 <= cc && cc < SIZE as i32 {
        let there = board.at(rr as usize, cc as usize);
        there == p
    } else {
        false
    }
}

/// Tests whether a maximal run of length exactly five starts at
/// `(row, col)` in direction `d`.
fn check_run_at(board: &Board, row: usize, col: usize, d: usize) -> (found: bool)
    requires
        board.wf(),
        row < SIZE,
        col < SIZE,
        d < 4,
    ensures
        found == exact_run_from(board@, row as int, col as int, d as int),
{
    let p = board.at(row, col);
    if matches!(p, Piece::Empty) {
        return false;
    }
    if !run_cell_matches(board, row, col, d, 1, p) {
        return false;
    }
    if !run_cell_matches(board, row, col, d, 2, p) {
        return false;
    }
    if !run_cell_matches(board, row, col, d, 3, p) {
        return false;
    }
    if !run_cell_matches(board, row, col, d, 4, p) {
        return false;
    }
    if run_cell_matches(board, row, col, d, -1, p) {
        return false;
    }
    if run_cell_matches(board, row, col, d, 5, p) {
        return false;
    }
    true
}

/// True iff some maximal run of identically-colored non-empty cells with
/// length exactly five exists on the board, in one of the four line
/// directions. A maximal run of six or more does not count.
pub fn has_qualifying_run(board: &Board) -> (r: bool)
    requires
        board.wf(),
    ensures
        r == has_exact_five(board@),
{
    let mut row: usize = 0;
    while row < SIZE
        invariant
            board.wf(),
            row <= SIZE,
            forall|r0: int, c0: int, d0: int|
                0 <= r0 < row && 0 <= c0 < SIZE && 0 <= d0 < 4 ==> !exact_run_from(
                    board@,
                    r0,
                    c0,
                    d0,
                ),
        decreases SIZE - row,
    {
        let mut col: usize = 0;
        while col < SIZE
            invariant
                board.wf(),
                row < SIZE,
                col <= SIZE,
                forall|r0: int, c0: int, d0: int|
                    0 <= r0 < row && 0 <= c0 < SIZE && 0 <= d0 < 4 ==> !exact_run_from(
                        board@,
                        r0,
                        c0,
                        d0,
                    ),
                forall|c0: int, d0: int|
                    0 <= c0 < col && 0 <= d0 < 4 ==> !exact_run_from(board@, row as int, c0, d0),
            decreases SIZE - col,
        {
            let mut d: usize = 0;
            while d < 4
                invariant
                    board.wf(),
                    row < SIZE,
                    col < SIZE,
                    d <= 4,
                    forall|d0: int|
                        0 <= d0 < d ==> !exact_run_from(board@, row as int, col as int, d0),
                decreases 4 - d,
            {
                if check_run_at(board, row, col, d) {
                    return true;
                }
                d = d + 1;
            }
            col = col + 1;
        }
        row = row + 1;
    }
    assert(!has_exact_five(board@)) by {
        if has_exact_five(board@) {
            let (r0, c0, d0) = choose|r0: int, c0: int, d0: int|
                0 <= d0 < 4 && exact_run_from(board@, r0, c0, d0);
        }
    }
    false
}

/// True unless the game is already decided against Order: once the board
/// is completely full and no qualifying run exists, Order cannot win and
/// this returns false. While the board has an empty cell, or a qualifying
/// run exists, it returns true.
pub fn order_can_still_win(board: &Board) -> (r: bool)
    requires
        board.wf(),
    ensures
        r == order_win_open(board@),
{
    has_qualifying_run(board) || !board.is_full()
}

/// Derives the winner, if any, from the current board: a qualifying run
/// means Order has won; a full board without one means Chaos has won;
/// otherwise the game continues and `winner` is left as it was. The
/// evaluator never overwrites a decided outcome with a lesser one: the two
/// winning conditions exclude each other.
pub fn evaluate_game_state(game_state: &GameState, winner: &mut Option<Role>)
    requires
        game_state.wf(),
    ensures
        *final(winner) == if has_exact_five(game_state.board@) {
            Some(Role::Order)
        } else if board_full(game_state.board@) {
            Some(Role::Chaos)
        } else {
            *old(winner)
        },
{
    if has_qualifying_run(&game_state.board) {
        *winner = Some(Role::Order);
    }
    if !order_can_still_win(&game_state.board) {
        *winner = Some(Role::Chaos);
    }
}

} // verus!
