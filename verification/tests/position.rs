use tic_tac_toe::position::Position;

#[test]
fn position_from_correctly_formatted_string() {
    assert_eq!(
        Position::from_str("1,2"),
        Result::Ok(Position { row: 1, col: 2 })
    );
}

#[test]
fn position_from_correctly_formatted_string_with_spaces() {
    assert_eq!(
        Position::from_str(" 3 , 2 "),
        Result::Ok(Position { row: 3, col: 2 })
    );
}

#[test]
fn position_from_incorrectly_formatted_string() {
    assert_eq!(
        Position::from_str(",1,2"),
        Result::Err(String::from("Select square in format \"ROW,COL\""))
    );
}

#[test]
fn position_from_empty_string() {
    assert_eq!(
        Position::from_str(""),
        Result::Err(String::from("Select square in format \"ROW,COL\""))
    );
}

#[test]
fn position_with_out_of_range_values() {
    assert_eq!(
        Position::from_str("9,2"),
        Result::Err(String::from(
            "ROW and COL values should be numbers between 1 and 3"
        ))
    );

    assert_eq!(
        Position::from_str("2,9"),
        Result::Err(String::from(
            "ROW and COL values should be numbers between 1 and 3"
        ))
    );
}

#[test]
fn position_with_large_values() {
    assert_eq!(
        Position::from_str("128,2"),
        Result::Err(String::from(
            "ROW and COL values should be numbers between 1 and 3"
        ))
    );
}

#[test]
fn position_from_non_numeric_value() {
    assert_eq!(
        Position::from_str("abc,2"),
        Result::Err(String::from(
            "ROW and COL values should be numbers between 1 and 3"
        ))
    );
}

#[test]
fn position_with_plus_sign_and_leading_zeros() {
    assert_eq!(
        Position::from_str("+1,003"),
        Result::Ok(Position { row: 1, col: 3 })
    );
}

#[test]
fn position_with_negative_value_is_out_of_range() {
    assert_eq!(
        Position::from_str("-1,2"),
        Result::Err(String::from(
            "ROW and COL values should be numbers between 1 and 3"
        ))
    );
}

#[test]
fn position_with_zero_is_out_of_range() {
    assert_eq!(
        Position::from_str("0,2"),
        Result::Err(String::from(
            "ROW and COL values should be numbers between 1 and 3"
        ))
    );
}

#[test]
fn position_with_inner_whitespace_is_rejected() {
    assert_eq!(
        Position::from_str("1 2,3"),
        Result::Err(String::from(
            "ROW and COL values should be numbers between 1 and 3"
        ))
    );
}

#[test]
fn position_with_vertical_tab_whitespace() {
    assert_eq!(
        Position::from_str("\u{000B}1,2"),
        Result::Ok(Position { row: 1, col: 2 })
    );
}

#[test]
fn position_with_unicode_whitespace() {
    assert_eq!(
        Position::from_str("\u{00A0}3\u{2003},\u{000C}2\u{3000}"),
        Result::Ok(Position { row: 3, col: 2 })
    );
}
