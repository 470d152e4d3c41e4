use tic_tac_toe::player::Player;
use tic_tac_toe::square::Square;

#[test]
fn square_from_player_wraps_the_players_mark() {
    assert_eq!(Square::from_player(&Player::X), Square::X);
    assert_eq!(Square::from_player(&Player::O), Square::O);
}

#[test]
fn square_is_filled_by_exactly_its_owner() {
    assert!(Square::X.filled_by(&Player::X));
    assert!(!Square::X.filled_by(&Player::O));
    assert!(Square::O.filled_by(&Player::O));
    assert!(!Square::O.filled_by(&Player::X));
    assert!(!Square::EMPTY.filled_by(&Player::X));
    assert!(!Square::EMPTY.filled_by(&Player::O));
}

#[test]
fn only_occupied_squares_are_filled() {
    assert!(Square::X.is_filled());
    assert!(Square::O.is_filled());
    assert!(!Square::EMPTY.is_filled());
}

#[test]
fn default_square_is_empty() {
    assert_eq!(Square::default(), Square::EMPTY);
}

#[test]
fn squares_are_labelled_with_their_mark_or_a_blank() {
    assert_eq!(Square::X.label(), "X");
    assert_eq!(Square::O.label(), "O");
    assert_eq!(Square::EMPTY.label(), " ");
}
