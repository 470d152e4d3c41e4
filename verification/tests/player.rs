use tic_tac_toe::player::Player;

#[test]
fn odd_moves_should_be_played_by_x() {
    assert_eq!(Player::from_move(3), Player::X)
}

#[test]
fn even_moves_should_be_played_by_o() {
    assert_eq!(Player::from_move(4), Player::O)
}

#[test]
fn move_zero_is_played_by_o() {
    assert_eq!(Player::from_move(0), Player::O)
}

#[test]
fn negative_odd_moves_are_played_by_x() {
    assert_eq!(Player::from_move(-3), Player::X)
}

#[test]
fn negative_even_moves_are_played_by_o() {
    assert_eq!(Player::from_move(-4), Player::O)
}

#[test]
fn players_are_labelled_x_and_o() {
    assert_eq!(Player::X.label(), "X");
    assert_eq!(Player::O.label(), "O");
}
