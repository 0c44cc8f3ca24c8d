use probability_gomoku::board::ResolvedBoard;
use probability_gomoku::piece::DefinitePiece;
use probability_gomoku::win::{check_winner, DrawReason, WinOutcome, WinningPieces};

const B: DefinitePiece = DefinitePiece::Black;
const W: DefinitePiece = DefinitePiece::White;

fn board_with(black: &[(usize, usize)], white: &[(usize, usize)]) -> ResolvedBoard {
    let mut board = ResolvedBoard::new();
    for &(row, col) in black {
        board.cells[row][col] = B;
    }
    for &(row, col) in white {
        board.cells[row][col] = W;
    }
    board
}

/// A full board on which no colour has more than two cells in a row in any
/// direction.
fn full_board_without_line() -> ResolvedBoard {
    let mut board = ResolvedBoard::new();
    for row in 0..15 {
        for col in 0..15 {
            board.cells[row][col] = if (col + 2 * row) % 4 < 2 { B } else { W };
        }
    }
    board
}

#[test]
fn empty_board_is_undecided() {
    let (winner, pieces) = check_winner(&ResolvedBoard::new());
    assert_eq!(winner, None);
    assert_eq!(pieces, WinningPieces::new());
}

#[test]
fn black_row_of_five_wins() {
    let board = board_with(&[(7, 3), (7, 4), (7, 5), (7, 6), (7, 7)], &[]);
    let (winner, pieces) = check_winner(&board);
    assert_eq!(winner, Some(WinOutcome::BlackWins));
    assert_eq!(pieces.black, vec![(7, 3), (7, 4), (7, 5), (7, 6), (7, 7)]);
    assert_eq!(pieces.white, vec![]);
}

#[test]
fn white_column_of_five_wins() {
    let board = board_with(&[], &[(2, 9), (3, 9), (4, 9), (5, 9), (6, 9)]);
    let (winner, pieces) = check_winner(&board);
    assert_eq!(winner, Some(WinOutcome::WhiteWins));
    assert_eq!(pieces.white, vec![(2, 9), (3, 9), (4, 9), (5, 9), (6, 9)]);
    assert!(pieces.black.is_empty());
}

#[test]
fn diagonal_down_right_wins() {
    let board = board_with(&[(10, 10), (11, 11), (12, 12), (13, 13), (14, 14)], &[]);
    let (winner, pieces) = check_winner(&board);
    assert_eq!(winner, Some(WinOutcome::BlackWins));
    assert_eq!(pieces.black, vec![(10, 10), (11, 11), (12, 12), (13, 13), (14, 14)]);
}

#[test]
fn diagonal_down_left_wins() {
    let board = board_with(&[], &[(2, 10), (3, 9), (4, 8), (5, 7), (6, 6)]);
    let (winner, pieces) = check_winner(&board);
    assert_eq!(winner, Some(WinOutcome::WhiteWins));
    assert_eq!(pieces.white, vec![(2, 10), (3, 9), (4, 8), (5, 7), (6, 6)]);
}

#[test]
fn diagonal_down_left_reaches_the_left_edge() {
    let board = board_with(&[(0, 4), (1, 3), (2, 2), (3, 1), (4, 0)], &[]);
    let (winner, pieces) = check_winner(&board);
    assert_eq!(winner, Some(WinOutcome::BlackWins));
    assert_eq!(pieces.black, vec![(0, 4), (1, 3), (2, 2), (3, 1), (4, 0)]);
}

#[test]
fn four_in_a_row_do_not_win() {
    let board = board_with(&[(7, 3), (7, 4), (7, 5), (7, 6)], &[(1, 1), (2, 2), (3, 3), (4, 4)]);
    let (winner, pieces) = check_winner(&board);
    assert_eq!(winner, None);
    assert_eq!(pieces, WinningPieces::new());
}

#[test]
fn a_gap_breaks_the_line() {
    let board = board_with(&[(7, 3), (7, 4), (7, 6), (7, 7), (7, 8)], &[(7, 5)]);
    let (winner, _) = check_winner(&board);
    assert_eq!(winner, None);
}

#[test]
fn a_line_does_not_wrap_around_the_edge() {
    let board = board_with(&[(0, 11), (0, 12), (0, 13), (0, 14), (1, 0)], &[]);
    assert_eq!(check_winner(&board).0, None);
    let board = board_with(&[(3, 3), (4, 2), (5, 1), (6, 0), (7, 14)], &[]);
    assert_eq!(check_winner(&board).0, None);
    let board = board_with(&[(11, 2), (12, 2), (13, 2), (14, 2), (0, 3)], &[]);
    assert_eq!(check_winner(&board).0, None);
}

#[test]
fn a_line_along_the_last_row_and_column_wins() {
    let board = board_with(&[(14, 10), (14, 11), (14, 12), (14, 13), (14, 14)], &[]);
    let (winner, pieces) = check_winner(&board);
    assert_eq!(winner, Some(WinOutcome::BlackWins));
    assert_eq!(pieces.black, vec![(14, 10), (14, 11), (14, 12), (14, 13), (14, 14)]);
    let board = board_with(&[], &[(10, 14), (11, 14), (12, 14), (13, 14), (14, 14)]);
    let (winner, pieces) = check_winner(&board);
    assert_eq!(winner, Some(WinOutcome::WhiteWins));
    assert_eq!(pieces.white, vec![(10, 14), (11, 14), (12, 14), (13, 14), (14, 14)]);
}

#[test]
fn six_in_a_row_are_credited_from_their_first_cell() {
    let board = board_with(&[(7, 3), (7, 4), (7, 5), (7, 6), (7, 7), (7, 8)], &[]);
    let (winner, pieces) = check_winner(&board);
    assert_eq!(winner, Some(WinOutcome::BlackWins));
    assert_eq!(pieces.black, vec![(7, 3), (7, 4), (7, 5), (7, 6), (7, 7)]);
}

#[test]
fn the_first_line_in_row_order_is_credited() {
    let board = board_with(
        &[
            (10, 0),
            (10, 1),
            (10, 2),
            (10, 3),
            (10, 4),
            (2, 5),
            (3, 5),
            (4, 5),
            (5, 5),
            (6, 5),
        ],
        &[],
    );
    let (winner, pieces) = check_winner(&board);
    assert_eq!(winner, Some(WinOutcome::BlackWins));
    assert_eq!(pieces.black, vec![(2, 5), (3, 5), (4, 5), (5, 5), (6, 5)]);
}

#[test]
fn the_earlier_origin_in_a_row_is_credited() {
    let board = board_with(
        &[],
        &[
            (4, 8),
            (5, 8),
            (6, 8),
            (7, 8),
            (8, 8),
            (4, 2),
            (5, 3),
            (6, 4),
            (7, 5),
            (8, 6),
        ],
    );
    let (winner, pieces) = check_winner(&board);
    assert_eq!(winner, Some(WinOutcome::WhiteWins));
    assert_eq!(pieces.white, vec![(4, 2), (5, 3), (6, 4), (7, 5), (8, 6)]);
}

#[test]
fn at_one_origin_the_directions_are_tried_in_order() {
    let origin = (3, 6);
    let right = [(3, 7), (3, 8), (3, 9), (3, 10)];
    let down = [(4, 6), (5, 6), (6, 6), (7, 6)];
    let down_right = [(4, 7), (5, 8), (6, 9), (7, 10)];
    let down_left = [(4, 5), (5, 4), (6, 3), (7, 2)];

    let mut all = vec![origin];
    all.extend(right);
    all.extend(down);
    all.extend(down_right);
    all.extend(down_left);
    let (_, pieces) = check_winner(&board_with(&all, &[]));
    assert_eq!(pieces.black, vec![(3, 6), (3, 7), (3, 8), (3, 9), (3, 10)]);

    let mut without_right = vec![origin];
    without_right.extend(down);
    without_right.extend(down_right);
    without_right.extend(down_left);
    let (_, pieces) = check_winner(&board_with(&without_right, &[]));
    assert_eq!(pieces.black, vec![(3, 6), (4, 6), (5, 6), (6, 6), (7, 6)]);

    let mut diagonals = vec![origin];
    diagonals.extend(down_right);
    diagonals.extend(down_left);
    let (_, pieces) = check_winner(&board_with(&diagonals, &[]));
    assert_eq!(pieces.black, vec![(3, 6), (4, 7), (5, 8), (6, 9), (7, 10)]);

    let mut last = vec![origin];
    last.extend(down_left);
    let (winner, pieces) = check_winner(&board_with(&last, &[]));
    assert_eq!(winner, Some(WinOutcome::BlackWins));
    assert_eq!(pieces.black, vec![(3, 6), (4, 5), (5, 4), (6, 3), (7, 2)]);
}

#[test]
fn both_colours_with_a_line_draw() {
    let board = board_with(
        &[(7, 3), (7, 4), (7, 5), (7, 6), (7, 7)],
        &[(1, 12), (2, 12), (3, 12), (4, 12), (5, 12)],
    );
    let (winner, pieces) = check_winner(&board);
    assert_eq!(winner, Some(WinOutcome::Draw(DrawReason::BothWin)));
    assert_eq!(pieces.black, vec![(7, 3), (7, 4), (7, 5), (7, 6), (7, 7)]);
    assert_eq!(pieces.white, vec![(1, 12), (2, 12), (3, 12), (4, 12), (5, 12)]);
}

#[test]
fn full_board_without_a_line_is_a_draw() {
    let board = full_board_without_line();
    let (winner, pieces) = check_winner(&board);
    assert_eq!(winner, Some(WinOutcome::Draw(DrawReason::BoardFull)));
    assert!(pieces.black.is_empty());
    assert!(pieces.white.is_empty());
}

#[test]
fn one_empty_cell_keeps_the_board_undecided() {
    let mut board = full_board_without_line();
    board.cells[14][14] = DefinitePiece::Empty;
    assert_eq!(check_winner(&board).0, None);
    let mut board = full_board_without_line();
    board.cells[0][0] = DefinitePiece::Empty;
    assert_eq!(check_winner(&board).0, None);
}

#[test]
fn a_line_on_a_full_board_wins() {
    let mut board = full_board_without_line();
    for col in 0..5 {
        board.cells[9][col] = B;
    }
    let (winner, pieces) = check_winner(&board);
    assert_eq!(winner, Some(WinOutcome::BlackWins));
    assert_eq!(pieces.black.len(), 5);
    assert!(pieces.white.is_empty());
}

#[test]
fn a_board_of_one_colour_is_won_from_the_first_cell() {
    let board = ResolvedBoard { cells: [[W; 15]; 15] };
    let (winner, pieces) = check_winner(&board);
    assert_eq!(winner, Some(WinOutcome::WhiteWins));
    assert_eq!(pieces.white, vec![(0, 0), (0, 1), (0, 2), (0, 3), (0, 4)]);
    assert!(pieces.black.is_empty());
}

#[test]
fn outcomes_are_announced() {
    assert_eq!(WinOutcome::BlackWins.message(), "Black Wins!");
    assert_eq!(WinOutcome::WhiteWins.message(), "White Wins!");
    assert_eq!(WinOutcome::Draw(DrawReason::BothWin).message(), "Draw! Both Players Win!");
    assert_eq!(WinOutcome::Draw(DrawReason::BoardFull).message(), "Draw! Board Full!");
}

#[test]
fn default_winning_pieces_are_empty() {
    let pieces = WinningPieces::default();
    assert!(pieces.black.is_empty());
    assert!(pieces.white.is_empty());
    assert_eq!(pieces, WinningPieces::new());
}
