use konane_engine::{Board, Piece};

#[test]
fn empty_board_as_text() {
    let board = Board::create_empty();
    let line = "            \n";

    assert_eq!(board.render(), line.repeat(6));
}

#[test]
fn default_board_as_text() {
    let board = Board::default();

    assert_eq!(
        board.render(),
        "B W B W B W \nB W B W B W \nB W B W B W \nB W B W B W \nB W B W B W \nB W B W B W \n"
    );
}

#[test]
fn text_shows_each_cell_in_its_place() {
    let mut board = Board::create_empty();
    let _ = board.set_piece(0, 0, Piece::BLACK);
    let _ = board.set_piece(0, 5, Piece::WHITE);
    let _ = board.set_piece(1, 2, Piece::WHITE);
    let _ = board.set_piece(5, 0, Piece::WHITE);
    let _ = board.set_piece(5, 5, Piece::BLACK);

    let text = board.render();
    assert_eq!(
        text,
        "B         W \n    W       \n            \n            \n            \nW         B \n"
    );
    assert_eq!(text.len(), 78);
    assert_eq!(text.lines().count(), 6);
}
