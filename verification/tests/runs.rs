use order_chaos::board::Board;
use order_chaos::evaluator::{evaluate_game_state, has_qualifying_run, order_can_still_win};
use order_chaos::model::{Piece, Role};
use order_chaos::state::GameState;

/// Places `piece` at every coordinate in `cells`, which must all be legal.
fn fill(board: &mut Board, cells: &[(usize, usize)], piece: Piece) {
    for &(row, col) in cells {
        assert_eq!(board.set(row, col, piece), Ok(()));
    }
}

#[test]
fn empty_board_has_no_qualifying_run() {
    let b = Board::new();
    assert!(!has_qualifying_run(&b));
    assert!(order_can_still_win(&b));
}

#[test]
fn fewer_than_five_pieces_never_qualify() {
    let mut b = Board::new();
    fill(&mut b, &[(0, 0), (0, 1), (0, 2), (0, 3)], Piece::ColorA);
    assert!(!has_qualifying_run(&b));
}

#[test]
fn horizontal_five_with_empty_sixth_qualifies() {
    let mut b = Board::new();
    fill(&mut b, &[(0, 0), (0, 1), (0, 2), (0, 3), (0, 4)], Piece::ColorA);
    assert!(has_qualifying_run(&b));
}

#[test]
fn horizontal_five_with_differently_colored_sixth_qualifies() {
    let mut b = Board::new();
    fill(&mut b, &[(3, 1), (3, 2), (3, 3), (3, 4), (3, 5)], Piece::ColorB);
    assert_eq!(b.set(3, 0, Piece::ColorA), Ok(()));
    assert!(has_qualifying_run(&b));
}

#[test]
fn horizontal_six_does_not_qualify() {
    let mut b = Board::new();
    fill(&mut b, &[(2, 0), (2, 1), (2, 2), (2, 3), (2, 4), (2, 5)], Piece::ColorA);
    assert!(!has_qualifying_run(&b));
}

#[test]
fn vertical_five_qualifies() {
    let mut b = Board::new();
    fill(&mut b, &[(1, 4), (2, 4), (3, 4), (4, 4), (5, 4)], Piece::ColorB);
    assert!(has_qualifying_run(&b));
}

#[test]
fn vertical_six_does_not_qualify() {
    let mut b = Board::new();
    fill(&mut b, &[(0, 1), (1, 1), (2, 1), (3, 1), (4, 1), (5, 1)], Piece::ColorB);
    assert!(!has_qualifying_run(&b));
}

#[test]
fn diagonal_down_right_five_qualifies() {
    let mut b = Board::new();
    fill(&mut b, &[(1, 1), (2, 2), (3, 3), (4, 4), (5, 5)], Piece::ColorA);
    assert!(has_qualifying_run(&b));
}

#[test]
fn diagonal_down_left_five_qualifies() {
    let mut b = Board::new();
    fill(&mut b, &[(0, 4), (1, 3), (2, 2), (3, 1), (4, 0)], Piece::ColorB);
    assert!(has_qualifying_run(&b));
}

#[test]
fn full_short_diagonal_near_corner_is_no_run() {
    let mut b = Board::new();
    fill(&mut b, &[(2, 0), (3, 1), (4, 2), (5, 3)], Piece::ColorA);
    assert!(!has_qualifying_run(&b));
}

#[test]
fn five_within_a_six_long_diagonal_does_not_qualify() {
    let mut b = Board::new();
    fill(&mut b, &[(0, 0), (1, 1), (2, 2), (3, 3), (4, 4), (5, 5)], Piece::ColorB);
    assert!(!has_qualifying_run(&b));
}

/// Fills the whole board with 2x2 blocks of alternating colors: every
/// horizontal and vertical run has length two, and the only longer runs are
/// the two six-long diagonals, so no run of exactly five exists anywhere.
fn full_board_without_exact_five() -> Board {
    let mut b = Board::new();
    for row in 0..6 {
        for col in 0..6 {
            let a_block = (row / 2 + col / 2) % 2 == 0;
            let piece = if a_block { Piece::ColorA } else { Piece::ColorB };
            assert_eq!(b.set(row, col, piece), Ok(()));
        }
    }
    b
}

#[test]
fn full_board_without_run_ends_the_game_for_chaos() {
    let b = full_board_without_exact_five();
    assert!(b.is_full());
    assert!(!has_qualifying_run(&b));
    assert!(!order_can_still_win(&b));
}

#[test]
fn full_board_with_exact_five_still_counts_for_order() {
    let mut b = Board::new();
    for row in 0..6 {
        let (five, sixth) = if row % 2 == 0 {
            (Piece::ColorA, Piece::ColorB)
        } else {
            (Piece::ColorB, Piece::ColorA)
        };
        for col in 0..5 {
            assert_eq!(b.set(row, col, five), Ok(()));
        }
        assert_eq!(b.set(row, 5, sixth), Ok(()));
    }
    assert!(b.is_full());
    assert!(has_qualifying_run(&b));
    assert!(order_can_still_win(&b));
}

#[test]
fn five_alternating_plays_complete_a_qualifying_run() {
    let mut g = GameState::new_game();
    let mut expected_turn = Role::Order;
    for col in 0..5 {
        assert_eq!(g.turn_player, expected_turn);
        assert_eq!(g.play((0, col), Piece::ColorA), Ok(()));
        expected_turn = expected_turn.opposite();
    }
    // the run counts no matter which role placed its last piece
    assert!(has_qualifying_run(&g.board));
    let mut winner: Option<Role> = None;
    evaluate_game_state(&g, &mut winner);
    assert_eq!(winner, Some(Role::Order));
}

#[test]
fn six_plays_in_a_row_leave_no_qualifying_run() {
    let mut g = GameState::new_game();
    for col in 0..6 {
        assert_eq!(g.play((0, col), Piece::ColorA), Ok(()));
    }
    assert!(!has_qualifying_run(&g.board));
    let mut winner: Option<Role> = None;
    evaluate_game_state(&g, &mut winner);
    assert_eq!(winner, None);
}

#[test]
fn evaluator_reports_chaos_on_full_run_free_board() {
    let b = full_board_without_exact_five();
    let g = GameState { board: b, turn_player: Role::Order };
    let mut winner: Option<Role> = None;
    evaluate_game_state(&g, &mut winner);
    assert_eq!(winner, Some(Role::Chaos));
}
