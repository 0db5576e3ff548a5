use chordcue::digits::decimal_string;
use chordcue::player_id::get_player_id;

#[test]
fn nine_digits_extract() {
    assert_eq!(get_player_id("128991414".to_string()), 128991414);
}

#[test]
fn eight_digits_are_absent() {
    assert_eq!(get_player_id("12899141".to_string()), 0);
}

#[test]
fn trailing_letter_is_absent() {
    assert_eq!(get_player_id("12899141a".to_string()), 0);
}

#[test]
fn too_long_is_absent() {
    assert_eq!(get_player_id("999999999999".to_string()), 0);
}

#[test]
fn empty_text_is_absent() {
    assert_eq!(get_player_id(String::new()), 0);
}

#[test]
fn sign_is_not_a_digit() {
    assert_eq!(get_player_id("+12345678".to_string()), 0);
    assert_eq!(get_player_id("-12345678".to_string()), 0);
}

#[test]
fn embedded_space_is_absent() {
    assert_eq!(get_player_id("1289 1414".to_string()), 0);
}

#[test]
fn non_ascii_text_is_absent() {
    assert_eq!(get_player_id("１２８９９１４１４".to_string()), 0);
}

#[test]
fn all_zero_digits_conflate_with_absent() {
    assert_eq!(get_player_id("000000000".to_string()), 0);
}

#[test]
fn largest_nine_digit_id() {
    assert_eq!(get_player_id("999999999".to_string()), 999999999);
}

#[test]
fn leading_zeros_extract() {
    assert_eq!(get_player_id("000000007".to_string()), 7);
}

#[test]
fn decimal_string_of_zero() {
    assert_eq!(decimal_string(0), "0");
}

#[test]
fn decimal_string_of_one_digit() {
    assert_eq!(decimal_string(7), "7");
}

#[test]
fn decimal_string_of_player_id() {
    assert_eq!(decimal_string(128991414), "128991414");
}

#[test]
fn decimal_string_of_largest_u32() {
    assert_eq!(decimal_string(u32::MAX), "4294967295");
}

#[test]
fn decimal_string_round_trips_through_extraction() {
    assert_eq!(get_player_id(decimal_string(128991414)), 128991414);
}
