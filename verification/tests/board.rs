use connect4::board::{BoardState, Direction, COLS, HOME_COLUMN, ROWS};
use connect4::cell::{Cell, ColorToken, Player};
use connect4::input::InputEvent;

fn aim(board: &mut BoardState, column: usize) {
    for _ in 0..COLS {
        board.move_floating(Direction::Left);
    }
    for _ in 0..column {
        board.move_floating(Direction::Right);
    }
    assert_eq!(board.floating_column(), column);
}

fn settled(board: &BoardState) -> bool {
    for column in 0..COLS {
        for row in 1..ROWS {
            if board.cell(column, row - 1) == Cell::Empty && board.cell(column, row) != Cell::Empty {
                return false;
            }
        }
    }
    true
}

fn pieces(board: &BoardState) -> usize {
    let mut count = 0;
    for column in 0..COLS {
        for row in 0..ROWS {
            if board.cell(column, row) != Cell::Empty {
                count += 1;
            }
        }
    }
    count
}

#[test]
fn new_board_is_empty_with_player_a_to_move() {
    let board = BoardState::new();
    assert_eq!(COLS, 7);
    assert_eq!(ROWS, 6);
    for column in 0..COLS {
        for row in 0..ROWS {
            assert_eq!(board.cell(column, row), Cell::Empty);
        }
    }
    assert_eq!(board.color_for_turn(), Player::A);
    assert_eq!(board.floating_column(), HOME_COLUMN);
    assert_eq!(HOME_COLUMN, 0);
}

#[test]
fn six_drops_fill_column_three_alternating() {
    let mut board = BoardState::new();
    for _ in 0..6 {
        aim(&mut board, 3);
        assert!(board.drop());
    }
    let expected = [
        Cell::PlayerA,
        Cell::PlayerB,
        Cell::PlayerA,
        Cell::PlayerB,
        Cell::PlayerA,
        Cell::PlayerB,
    ];
    for row in 0..ROWS {
        assert_eq!(board.cell(3, row), expected[row]);
    }
    for column in 0..COLS {
        if column != 3 {
            for row in 0..ROWS {
                assert_eq!(board.cell(column, row), Cell::Empty);
            }
        }
    }
    assert_eq!(board.color_for_turn(), Player::A);

    aim(&mut board, 3);
    let before = board.clone();
    assert!(!board.drop());
    assert_eq!(board, before);
    assert_eq!(board.floating_column(), 3);
    assert_eq!(board.color_for_turn(), Player::A);
}

#[test]
fn drop_into_full_column_changes_nothing() {
    let mut board = BoardState::new();
    for _ in 0..5 {
        aim(&mut board, 6);
        assert!(board.drop());
    }
    aim(&mut board, 2);
    assert!(board.drop());
    aim(&mut board, 6);
    assert!(board.drop());
    assert_eq!(board.color_for_turn(), Player::B);
    aim(&mut board, 6);
    let before = board.clone();
    for _ in 0..4 {
        assert!(!board.drop());
        assert_eq!(board, before);
        assert_eq!(board.color_for_turn(), Player::B);
    }
}

#[test]
fn first_drop_lands_on_the_bottom_row() {
    let mut board = BoardState::new();
    aim(&mut board, 4);
    assert!(board.drop());
    assert_eq!(board.cell(4, 0), Cell::PlayerA);
    assert_eq!(board.cell(4, 1), Cell::Empty);
    assert_eq!(pieces(&board), 1);
}

#[test]
fn second_drop_lands_on_the_first() {
    let mut board = BoardState::new();
    aim(&mut board, 1);
    assert!(board.drop());
    aim(&mut board, 1);
    assert!(board.drop());
    assert_eq!(board.cell(1, 0), Cell::PlayerA);
    assert_eq!(board.cell(1, 1), Cell::PlayerB);
    assert_eq!(board.cell(1, 2), Cell::Empty);
}

#[test]
fn drop_sends_the_floating_piece_home() {
    let mut board = BoardState::new();
    aim(&mut board, 5);
    assert!(board.drop());
    assert_eq!(board.floating_column(), HOME_COLUMN);
    assert!(board.drop());
    assert_eq!(board.cell(0, 0), Cell::PlayerB);
}

#[test]
fn turn_alternates_after_each_placed_piece() {
    let mut board = BoardState::new();
    let mut expected = Player::A;
    for turn in 0..(COLS * ROWS) {
        assert_eq!(board.color_for_turn(), expected);
        aim(&mut board, turn % COLS);
        assert_eq!(board.color_for_turn(), expected);
        assert!(board.drop());
        expected = expected.other();
        assert_eq!(board.color_for_turn(), expected);
    }
    assert_eq!(pieces(&board), COLS * ROWS);
    for column in 0..COLS {
        aim(&mut board, column);
        assert!(!board.drop());
        assert_eq!(board.color_for_turn(), expected);
    }
}

#[test]
fn floating_piece_stays_on_the_board() {
    let mut board = BoardState::new();
    board.move_floating(Direction::Left);
    assert_eq!(board.floating_column(), 0);
    for step in 1..=6 {
        board.move_floating(Direction::Right);
        assert_eq!(board.floating_column(), step);
    }
    board.move_floating(Direction::Right);
    assert_eq!(board.floating_column(), 6);
    board.move_floating(Direction::Right);
    assert_eq!(board.floating_column(), 6);
    board.move_floating(Direction::Left);
    assert_eq!(board.floating_column(), 5);
}

#[test]
fn moving_does_not_touch_cells_or_turn() {
    let mut board = BoardState::new();
    aim(&mut board, 2);
    assert!(board.drop());
    let cells_before = pieces(&board);
    board.move_floating(Direction::Right);
    board.move_floating(Direction::Right);
    board.move_floating(Direction::Left);
    assert_eq!(pieces(&board), cells_before);
    assert_eq!(board.cell(2, 0), Cell::PlayerA);
    assert_eq!(board.color_for_turn(), Player::B);
}

#[test]
fn may_aim_at_a_full_column() {
    let mut board = BoardState::new();
    for _ in 0..6 {
        assert!(board.drop());
    }
    assert_eq!(board.floating_column(), 0);
    board.move_floating(Direction::Right);
    board.move_floating(Direction::Left);
    assert_eq!(board.floating_column(), 0);
    assert!(!board.drop());
}

#[test]
fn no_piece_ever_floats_above_an_empty_cell() {
    let columns = [3, 3, 0, 6, 3, 1, 1, 3, 3, 3, 3, 6, 6, 0, 2, 5, 4, 4, 4, 4, 4, 4, 4, 0, 0, 0, 0, 0];
    let mut board = BoardState::new();
    assert!(settled(&board));
    let mut placed = 0;
    for column in columns {
        aim(&mut board, column);
        if board.drop() {
            placed += 1;
        }
        assert!(settled(&board));
        assert_eq!(pieces(&board), placed);
    }
    assert_eq!(placed, 25);
}

#[test]
fn apply_follows_the_event() {
    let mut board = BoardState::new();
    board.apply(InputEvent::MoveRight);
    board.apply(InputEvent::MoveRight);
    assert_eq!(board.floating_column(), 2);
    board.apply(InputEvent::MoveLeft);
    assert_eq!(board.floating_column(), 1);
    let before = board.clone();
    board.apply(InputEvent::Quit);
    assert_eq!(board, before);
    board.apply(InputEvent::RecolorAccent);
    assert_eq!(board, before);
    board.apply(InputEvent::Drop);
    assert_eq!(board.cell(1, 0), Cell::PlayerA);
    assert_eq!(board.color_for_turn(), Player::B);
    assert_eq!(board.floating_column(), 0);
}

#[test]
fn players_and_cells_correspond() {
    assert_eq!(Player::A.other(), Player::B);
    assert_eq!(Player::B.other(), Player::A);
    assert_eq!(Player::A.other().other(), Player::A);
    assert_eq!(Player::A.cell(), Cell::PlayerA);
    assert_eq!(Player::B.cell(), Cell::PlayerB);
    assert_eq!(Player::A.token(), ColorToken::PlayerA);
    assert_eq!(Player::B.token(), ColorToken::PlayerB);
    assert_eq!(Cell::Empty.owner(), None);
    assert_eq!(Cell::PlayerA.owner(), Some(Player::A));
    assert_eq!(Cell::PlayerB.owner(), Some(Player::B));
    assert!(Cell::Empty.is_empty());
    assert!(!Cell::PlayerA.is_empty());
    assert!(!Cell::PlayerB.is_empty());
}
