use monty_hall::input::{parse_u64, validate_number_input};
use monty_hall::stats::{ideal_percent_hundredths, winning_percent_hundredths};

#[test]
fn plain_numbers_parse_to_their_value() {
    assert_eq!(parse_u64(b"0"), Some(0));
    assert_eq!(parse_u64(b"7"), Some(7));
    assert_eq!(parse_u64(b"42"), Some(42));
    assert_eq!(parse_u64(b"1000000"), Some(1_000_000));
    assert_eq!(parse_u64(b"0042"), Some(42));
}

#[test]
fn the_largest_u64_still_parses() {
    assert_eq!(parse_u64(b"18446744073709551615"), Some(u64::MAX));
}

#[test]
fn values_past_the_largest_u64_are_rejected() {
    assert_eq!(parse_u64(b"18446744073709551616"), None);
    assert_eq!(parse_u64(b"99999999999999999999999"), None);
}

#[test]
fn non_numeric_input_is_rejected() {
    assert_eq!(parse_u64(b""), None);
    assert_eq!(parse_u64(b"abc"), None);
    assert_eq!(parse_u64(b"12a"), None);
    assert_eq!(parse_u64(b"a12"), None);
    assert_eq!(parse_u64(b"1 2"), None);
    assert_eq!(parse_u64(b"-3"), None);
    assert_eq!(parse_u64(b"3.5"), None);
}

#[test]
fn the_prompt_only_accepts_numbers_within_the_range() {
    assert_eq!(validate_number_input(b"3", 1, 1_000), Some(3));
    assert_eq!(validate_number_input(b"1", 1, 1_000), Some(1));
    assert_eq!(validate_number_input(b"1000", 1, 1_000), Some(1_000));
    assert_eq!(validate_number_input(b"0", 1, 1_000), None);
    assert_eq!(validate_number_input(b"1001", 1, 1_000), None);
    assert_eq!(validate_number_input(b"", 1, 1_000), None);
    assert_eq!(validate_number_input(b"three", 1, 1_000), None);
    assert_eq!(validate_number_input(b"18446744073709551616", 1, 1_000), None);
}

#[test]
fn winning_percent_is_exact_in_hundredths() {
    assert_eq!(winning_percent_hundredths(2, 3), 6_666);
    assert_eq!(winning_percent_hundredths(1, 3), 3_333);
    assert_eq!(winning_percent_hundredths(0, 5), 0);
    assert_eq!(winning_percent_hundredths(5, 5), 10_000);
    assert_eq!(winning_percent_hundredths(66_713, 100_000), 6_671);
}

#[test]
fn ideal_percent_follows_the_door_count() {
    assert_eq!(ideal_percent_hundredths(3, true), 6_666);
    assert_eq!(ideal_percent_hundredths(3, false), 3_333);
    assert_eq!(ideal_percent_hundredths(10, true), 9_000);
    assert_eq!(ideal_percent_hundredths(10, false), 1_000);
    assert_eq!(ideal_percent_hundredths(1, true), 0);
    assert_eq!(ideal_percent_hundredths(1, false), 10_000);
}
