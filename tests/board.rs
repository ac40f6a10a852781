use tic_tac_toe::board::{Board, Mark, Player};
use tic_tac_toe::errors::Error;

#[test]
fn turns() {
    let mut state: Board<u8, 9> = Board::default();
    let bad_coordinate = state.turn(Player::XPlayer, 10);
    assert_eq!(bad_coordinate, Err(Error::CoordinateNotExists));

    let first_turn = state.turn(Player::XPlayer, 0);
    assert_eq!(first_turn, Ok(()));

    let filled_turn = state.turn(Player::OPlayer, 0);
    assert_eq!(filled_turn, Err(Error::CoordinateAlreadyFilled));
}

#[test]
fn out_of_range_coordinates_leave_board_unchanged() {
    let mut state: Board<u8, 9> = Board::default();
    state.turn(Player::OPlayer, 4).unwrap();
    let before = state.cells();
    for c in [9usize, 10, 100, usize::MAX] {
        assert_eq!(state.turn(Player::XPlayer, c), Err(Error::CoordinateNotExists));
        assert_eq!(state.cells(), before);
    }
}

#[test]
fn filled_cell_is_never_overwritten() {
    let mut state = Board::<u8, 9>::new([Some(0), None, Some(1), None, None, None, None, None, None]);
    let before = state.cells();
    assert_eq!(state.turn(Player::OPlayer, 0), Err(Error::CoordinateAlreadyFilled));
    assert_eq!(state.turn(Player::XPlayer, 2), Err(Error::CoordinateAlreadyFilled));
    assert_eq!(state.cells(), before);
}

#[test]
fn turn_writes_the_role_mark() {
    let mut state: Board<u8, 9> = Board::default();
    assert_eq!(state.turn(Player::XPlayer, 8), Ok(()));
    assert_eq!(state.turn(Player::OPlayer, 3), Ok(()));
    assert_eq!(
        state.cells(),
        [None, None, None, Some(1), None, None, None, None, Some(0)]
    );
}

#[test]
fn default_board_is_empty() {
    let state: Board<u8, 9> = Board::default();
    assert_eq!(state.cells(), [None; 9]);
}

#[test]
fn mark_codes() {
    assert_eq!(u8::from(Mark::X), 0);
    assert_eq!(u8::from(Mark::O), 1);
    assert_eq!(Mark::from(0u8), Mark::X);
    assert_eq!(Mark::from(1u8), Mark::O);
    assert_eq!(Mark::from(7u8), Mark::O);
    assert!(Mark::X.is_x());
    assert!(!Mark::X.is_o());
    assert!(Mark::O.is_o());
    assert!(!Mark::O.is_x());
}
