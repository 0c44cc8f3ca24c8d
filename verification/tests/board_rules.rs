use probability_gomoku::board::{Board, Rejection, ResolvedBoard, BOARD_SIZE};
use probability_gomoku::piece::{DefinitePiece, Player, ProbPiece};

#[test]
fn new_board_is_empty() {
    let board = Board::new();
    for row in 0..BOARD_SIZE {
        for col in 0..BOARD_SIZE {
            assert_eq!(board.get(row, col), Some(ProbPiece::Empty));
        }
    }
    assert_eq!(board, Board { cells: [[ProbPiece::Empty; 15]; 15] });
}

#[test]
fn new_resolved_board_is_empty() {
    let board = ResolvedBoard::new();
    assert_eq!(board, ResolvedBoard { cells: [[DefinitePiece::Empty; 15]; 15] });
    assert_eq!(board.get(14, 14), Some(DefinitePiece::Empty));
    assert_eq!(board.get(15, 0), None);
}

#[test]
fn board_size_is_fifteen() {
    assert_eq!(BOARD_SIZE, 15);
}

#[test]
fn get_outside_the_board_is_none() {
    let board = Board::new();
    assert_eq!(board.get(15, 0), None);
    assert_eq!(board.get(0, 15), None);
    assert_eq!(board.get(usize::MAX, usize::MAX), None);
    assert_eq!(board.get(14, 14), Some(ProbPiece::Empty));
}

#[test]
fn place_sets_the_cell_and_no_other() {
    let mut board = Board::new();
    assert_eq!(board.place(3, 4, ProbPiece::Black70), Ok(()));
    let mut expected = Board::new();
    expected.cells[3][4] = ProbPiece::Black70;
    assert_eq!(board, expected);
    assert_eq!(board.get(3, 4), Some(ProbPiece::Black70));
    assert_eq!(board.get(4, 3), Some(ProbPiece::Empty));
}

#[test]
fn place_in_every_corner() {
    let mut board = Board::new();
    assert_eq!(board.place(0, 0, ProbPiece::Black90), Ok(()));
    assert_eq!(board.place(0, 14, ProbPiece::Black70), Ok(()));
    assert_eq!(board.place(14, 0, ProbPiece::Black30), Ok(()));
    assert_eq!(board.place(14, 14, ProbPiece::Black10), Ok(()));
    assert_eq!(board.cells[0][0], ProbPiece::Black90);
    assert_eq!(board.cells[0][14], ProbPiece::Black70);
    assert_eq!(board.cells[14][0], ProbPiece::Black30);
    assert_eq!(board.cells[14][14], ProbPiece::Black10);
}

#[test]
fn place_out_of_bounds_is_rejected_and_changes_nothing() {
    let mut board = Board::new();
    board.place(1, 1, ProbPiece::Black90).unwrap();
    let before = board;
    assert_eq!(board.place(15, 0, ProbPiece::Black90), Err(Rejection::OutOfBounds));
    assert_eq!(board.place(0, 15, ProbPiece::Black90), Err(Rejection::OutOfBounds));
    assert_eq!(board.place(15, 15, ProbPiece::Black90), Err(Rejection::OutOfBounds));
    assert_eq!(board.place(usize::MAX, 3, ProbPiece::Black90), Err(Rejection::OutOfBounds));
    assert_eq!(board, before);
}

#[test]
fn place_on_an_occupied_cell_is_rejected_and_changes_nothing() {
    let mut board = Board::new();
    board.place(7, 7, ProbPiece::Black90).unwrap();
    let before = board;
    assert_eq!(board.place(7, 7, ProbPiece::Black10), Err(Rejection::CellOccupied));
    assert_eq!(board.place(7, 7, ProbPiece::Black90), Err(Rejection::CellOccupied));
    assert_eq!(board, before);
    assert_eq!(board.get(7, 7), Some(ProbPiece::Black90));
}

#[test]
fn out_of_bounds_is_reported_before_occupancy() {
    let mut board = Board { cells: [[ProbPiece::Black90; 15]; 15] };
    assert_eq!(board.place(15, 7, ProbPiece::Black10), Err(Rejection::OutOfBounds));
    assert_eq!(board.place(7, 7, ProbPiece::Black10), Err(Rejection::CellOccupied));
}

#[test]
fn markers_of_the_players_by_rotation_index() {
    assert_eq!(Player::Black.marker(0), ProbPiece::Black90);
    assert_eq!(Player::Black.marker(1), ProbPiece::Black70);
    assert_eq!(Player::Black.marker(2), ProbPiece::Black90);
    assert_eq!(Player::White.marker(0), ProbPiece::Black10);
    assert_eq!(Player::White.marker(1), ProbPiece::Black30);
    assert_eq!(Player::White.marker(7), ProbPiece::Black10);
}

#[test]
fn opponents() {
    assert_eq!(Player::Black.opponent(), Player::White);
    assert_eq!(Player::White.opponent(), Player::Black);
}
