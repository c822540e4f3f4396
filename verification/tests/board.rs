use konane_engine::{Board, Piece};

#[test]
fn equality_checks() {
    let empty1 = Piece::EMPTY;
    let empty2 = Piece::EMPTY;

    let white1 = Piece::WHITE;
    let white2 = Piece::WHITE;

    let black1 = Piece::BLACK;
    let black2 = Piece::BLACK;

    assert_eq!(empty1, empty2);
    assert_eq!(white1, white2);
    assert_eq!(black1, black2);

    assert_ne!(empty1, white1);
    assert_ne!(empty1, black1);
    assert_ne!(white1, black1);
}

#[test]
fn default_piece_is_empty() {
    assert_eq!(Piece::default(), Piece::EMPTY);
}

#[test]
fn empty_board_reads_empty_everywhere() {
    let board = Board::create_empty();

    for row in 0..6 {
        for col in 0..6 {
            assert_eq!(board.get_piece(row, col), Some(Piece::EMPTY));
        }
    }
}

#[test]
fn default_board_starts_black_then_white() {
    let board = Board::default();

    assert_eq!(board.get_piece(0, 0), Some(Piece::BLACK));
    assert_eq!(board.get_piece(0, 1), Some(Piece::WHITE));
}

#[test]
fn default_board_rows_alternate() {
    let board = Board::default();

    for row in 0..6 {
        for col in 0..6 {
            let expected = if col % 2 == 0 {
                Piece::BLACK
            } else {
                Piece::WHITE
            };
            assert_eq!(board.get_piece(row, col), Some(expected));
        }
    }
}

#[test]
fn default_board_last_cells() {
    let board = Board::default();

    assert_eq!(board.get_piece(5, 4), Some(Piece::BLACK));
    assert_eq!(board.get_piece(5, 5), Some(Piece::WHITE));
    assert_eq!(board.get_piece(1, 0), Some(Piece::BLACK));
}

#[test]
fn get_off_board_is_none() {
    let board = Board::default();

    assert_eq!(board.get_piece(6, 1), None);
    assert_eq!(board.get_piece(1, 6), None);
    assert_eq!(board.get_piece(6, 6), None);
    assert_eq!(board.get_piece(usize::MAX, 0), None);
    assert_eq!(board.get_piece(0, usize::MAX), None);
    assert_eq!(board.get_piece(usize::MAX, usize::MAX), None);
}

#[test]
fn get_at_the_last_row_and_column() {
    let board = Board::create_empty();

    assert_eq!(board.get_piece(5, 0), Some(Piece::EMPTY));
    assert_eq!(board.get_piece(0, 5), Some(Piece::EMPTY));
    assert_eq!(board.get_piece(5, 5), Some(Piece::EMPTY));
}

#[test]
fn set_returns_prior_and_get_reads_new() {
    let mut board = Board::create_empty();

    let captured_piece = board.set_piece(0, 1, Piece::WHITE).unwrap();
    assert_eq!(captured_piece, Piece::EMPTY);
    assert_eq!(board.get_piece(0, 1), Some(Piece::WHITE));

    let captured_piece = board.set_piece(0, 1, Piece::BLACK).unwrap();
    assert_eq!(captured_piece, Piece::WHITE);
    assert_eq!(board.get_piece(0, 1), Some(Piece::BLACK));
}

#[test]
fn set_then_get_on_every_cell() {
    for row in 0..6 {
        for col in 0..6 {
            for piece in [Piece::EMPTY, Piece::WHITE, Piece::BLACK] {
                let mut board = Board::default();
                let before = board.get_piece(row, col);
                assert_eq!(board.set_piece(row, col, piece), before);
                assert_eq!(board.get_piece(row, col), Some(piece));
            }
        }
    }
}

#[test]
fn set_changes_one_cell_only() {
    let mut board = Board::default();
    assert_eq!(board.set_piece(2, 3, Piece::EMPTY), Some(Piece::WHITE));

    let start = Board::default();
    for row in 0..6 {
        for col in 0..6 {
            if (row, col) == (2, 3) {
                assert_eq!(board.get_piece(row, col), Some(Piece::EMPTY));
            } else {
                assert_eq!(board.get_piece(row, col), start.get_piece(row, col));
            }
        }
    }
}

#[test]
fn set_off_board_is_none_and_changes_nothing() {
    let mut board = Board::default();

    assert_eq!(board.set_piece(6, 0, Piece::EMPTY), None);
    assert_eq!(board.set_piece(0, 6, Piece::EMPTY), None);
    assert_eq!(board.set_piece(usize::MAX, usize::MAX, Piece::EMPTY), None);

    let start = Board::default();
    for row in 0..6 {
        for col in 0..6 {
            assert_eq!(board.get_piece(row, col), start.get_piece(row, col));
        }
    }
}

#[test]
fn cells_lie_row_after_row() {
    let mut board = Board::create_empty();
    let _ = board.set_piece(0, 5, Piece::WHITE);
    let _ = board.set_piece(1, 0, Piece::BLACK);

    assert_eq!(board.get_piece(0, 5), Some(Piece::WHITE));
    assert_eq!(board.get_piece(1, 0), Some(Piece::BLACK));
    assert_eq!(board.get_piece(5, 0), Some(Piece::EMPTY));
    assert_eq!(board.get_piece(0, 1), Some(Piece::EMPTY));
}
