use gridcat::board::{Board, Piece, PlaceError, Square};

#[test]
fn new_board_is_empty_and_in_progress() {
    let b = Board::new();
    assert_eq!(b.check_state(), None);
}

#[test]
fn square_new_is_unoccupied() {
    let s = Square::new();
    assert_eq!(s.symbol(), ".");
}

#[test]
fn out_of_bounds_row_rejected() {
    let mut b = Board::new();
    assert_eq!(b.place(Piece::X, 3, 0), Err(PlaceError::OutOfBounds));
    assert_eq!(b.place(Piece::X, 7, 1), Err(PlaceError::OutOfBounds));
}

#[test]
fn out_of_bounds_col_rejected() {
    let mut b = Board::new();
    assert_eq!(b.place(Piece::X, 0, 3), Err(PlaceError::OutOfBounds));
    assert_eq!(b.place(Piece::O, 2, 100), Err(PlaceError::OutOfBounds));
}

#[test]
fn occupied_cell_rejected_for_either_symbol() {
    let mut b = Board::new();
    assert_eq!(b.place(Piece::X, 1, 1), Ok(()));
    // The occupied check comes before the turn check, so both markers are
    // turned away with the same error.
    assert_eq!(b.place(Piece::O, 1, 1), Err(PlaceError::CellOccupied));
    assert_eq!(b.place(Piece::X, 1, 1), Err(PlaceError::CellOccupied));
}

#[test]
fn first_move_belongs_to_x() {
    let mut b = Board::new();
    assert_eq!(b.place(Piece::O, 0, 0), Err(PlaceError::WrongTurn(Piece::X)));
    // The rejected move changed nothing: X can still take the square.
    assert_eq!(b.place(Piece::X, 0, 0), Ok(()));
}

#[test]
fn second_move_belongs_to_o() {
    let mut b = Board::new();
    assert_eq!(b.place(Piece::X, 0, 0), Ok(()));
    assert_eq!(b.place(Piece::X, 1, 1), Err(PlaceError::WrongTurn(Piece::O)));
    assert_eq!(b.place(Piece::O, 1, 1), Ok(()));
    assert_eq!(b.place(Piece::O, 2, 2), Err(PlaceError::WrongTurn(Piece::X)));
}

#[test]
fn error_messages_match() {
    assert_eq!(PlaceError::OutOfBounds.message(), "Position is out of bounds");
    assert_eq!(
        PlaceError::CellOccupied.message(),
        "Position is already occupied"
    );
    assert_eq!(PlaceError::WrongTurn(Piece::X).message(), "It's X's turn!");
    assert_eq!(PlaceError::WrongTurn(Piece::O).message(), "It's O's turn!");
}

#[test]
fn no_winner_without_a_completed_line() {
    let mut b = Board::new();
    assert_eq!(b.place(Piece::X, 0, 0), Ok(()));
    assert_eq!(b.place(Piece::O, 0, 1), Ok(()));
    assert_eq!(b.place(Piece::X, 1, 1), Ok(()));
    assert_eq!(b.place(Piece::O, 2, 2), Ok(()));
    assert_eq!(b.check_state(), None);
}

#[test]
fn x_wins_across_top_row() {
    let mut b = Board::new();
    assert_eq!(b.place(Piece::X, 0, 0), Ok(()));
    assert_eq!(b.place(Piece::O, 1, 0), Ok(()));
    assert_eq!(b.place(Piece::X, 0, 1), Ok(()));
    assert_eq!(b.place(Piece::O, 1, 1), Ok(()));
    assert_eq!(b.check_state(), None);
    assert_eq!(b.place(Piece::X, 0, 2), Ok(()));
    assert_eq!(b.check_state(), Some(Piece::X));
    let text = b.render();
    let top_row = text.lines().nth(1).unwrap();
    assert_eq!(top_row, "| X || X || X |");
}

#[test]
fn o_wins_down_a_column() {
    let mut b = Board::new();
    assert_eq!(b.place(Piece::X, 0, 0), Ok(()));
    assert_eq!(b.place(Piece::O, 0, 2), Ok(()));
    assert_eq!(b.place(Piece::X, 1, 0), Ok(()));
    assert_eq!(b.place(Piece::O, 1, 2), Ok(()));
    assert_eq!(b.place(Piece::X, 2, 1), Ok(()));
    assert_eq!(b.place(Piece::O, 2, 2), Ok(()));
    assert_eq!(b.check_state(), Some(Piece::O));
}

#[test]
fn x_wins_on_the_diagonal() {
    let mut b = Board::new();
    assert_eq!(b.place(Piece::X, 0, 0), Ok(()));
    assert_eq!(b.place(Piece::O, 0, 1), Ok(()));
    assert_eq!(b.place(Piece::X, 1, 1), Ok(()));
    assert_eq!(b.place(Piece::O, 0, 2), Ok(()));
    assert_eq!(b.place(Piece::X, 2, 2), Ok(()));
    assert_eq!(b.check_state(), Some(Piece::X));
}

#[test]
fn o_wins_on_the_anti_diagonal() {
    let mut b = Board::new();
    assert_eq!(b.place(Piece::X, 0, 0), Ok(()));
    assert_eq!(b.place(Piece::O, 0, 2), Ok(()));
    assert_eq!(b.place(Piece::X, 1, 0), Ok(()));
    assert_eq!(b.place(Piece::O, 1, 1), Ok(()));
    assert_eq!(b.place(Piece::X, 2, 2), Ok(()));
    assert_eq!(b.place(Piece::O, 2, 0), Ok(()));
    assert_eq!(b.check_state(), Some(Piece::O));
}

#[test]
fn empty_board_renders_dots() {
    let b = Board::new();
    let expected = "---------------\n\
                    | . || . || . |\n\
                    ---------------\n\
                    | . || . || . |\n\
                    ---------------\n\
                    | . || . || . |\n\
                    ---------------\n";
    assert_eq!(b.render(), expected);
}

#[test]
fn rendered_board_shows_both_markers() {
    let mut b = Board::new();
    assert_eq!(b.place(Piece::X, 0, 0), Ok(()));
    assert_eq!(b.place(Piece::O, 2, 1), Ok(()));
    let expected = "---------------\n\
                    | X || . || . |\n\
                    ---------------\n\
                    | . || . || . |\n\
                    ---------------\n\
                    | . || O || . |\n\
                    ---------------\n";
    assert_eq!(b.render(), expected);
}
