use ridiculous_bevy_hot_reloading::text::{concat2, find_after_last, is_one_of, u64_to_decimal};

#[test]
fn decimal_of_zero_is_one_digit() {
    assert_eq!(u64_to_decimal(0), "0");
}

#[test]
fn decimal_of_single_digits() {
    assert_eq!(u64_to_decimal(7), "7");
    assert_eq!(u64_to_decimal(9), "9");
}

#[test]
fn decimal_has_no_leading_zeros() {
    assert_eq!(u64_to_decimal(10), "10");
    assert_eq!(u64_to_decimal(1005), "1005");
}

#[test]
fn decimal_of_largest_value() {
    assert_eq!(u64_to_decimal(u64::MAX), "18446744073709551615");
}

#[test]
fn decimal_agrees_with_std_formatting() {
    let samples: [u64; 6] = [1, 42, 99, 100, 123_456_789, 9_999_999_999_999_999_999];
    for n in samples {
        assert_eq!(u64_to_decimal(n), format!("{}", n));
    }
}

#[test]
fn after_last_finds_position_behind_last_stop() {
    assert_eq!(find_after_last("a/b/c", "/"), 4);
    assert_eq!(find_after_last("a/b/", "/"), 4);
    assert_eq!(find_after_last("/abc", "/"), 1);
}

#[test]
fn after_last_is_zero_without_stop() {
    assert_eq!(find_after_last("abc", "/"), 0);
    assert_eq!(find_after_last("", "/"), 0);
    assert_eq!(find_after_last("abc", ""), 0);
}

#[test]
fn after_last_takes_any_of_the_stops() {
    assert_eq!(find_after_last("a\\b/c", "\\/"), 4);
    assert_eq!(find_after_last("a/b\\c", "\\/"), 4);
    assert_eq!(find_after_last("a/b\\c", "/"), 2);
}

#[test]
fn after_last_counts_characters_not_bytes() {
    assert_eq!(find_after_last("é/ü", "/"), 2);
}

#[test]
fn one_of_tells_membership() {
    assert!(is_one_of("\\/", '/'));
    assert!(is_one_of("\\/", '\\'));
    assert!(!is_one_of("\\/", '.'));
    assert!(!is_one_of("", '/'));
}

#[test]
fn concat_appends() {
    assert_eq!(concat2("lib_", "game"), "lib_game");
    assert_eq!(concat2("", ""), "");
}
