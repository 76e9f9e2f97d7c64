use family_tree::text::{append_decimal, decimal_string};

#[test]
fn decimal_of_zero_is_one_digit() {
    assert_eq!(decimal_string(0), "0");
}

#[test]
fn decimal_of_single_digits() {
    for d in 0..10u64 {
        assert_eq!(decimal_string(d), format!("{}", d));
    }
}

#[test]
fn decimal_of_round_numbers_keeps_zeros() {
    assert_eq!(decimal_string(10), "10");
    assert_eq!(decimal_string(100), "100");
    assert_eq!(decimal_string(1_000_000), "1000000");
    assert_eq!(decimal_string(1_020_304), "1020304");
}

#[test]
fn decimal_of_largest_value() {
    assert_eq!(decimal_string(u64::MAX), "18446744073709551615");
}

#[test]
fn append_decimal_keeps_what_was_there() {
    let mut s = String::from("ID_");
    append_decimal(&mut s, 42);
    assert_eq!(s, "ID_42");
    append_decimal(&mut s, 0);
    assert_eq!(s, "ID_420");
}

#[test]
fn decimal_agrees_with_the_standard_formatting() {
    let samples = [
        7u64,
        99,
        101,
        65_535,
        4_294_967_296,
        9_999_999_999_999_999_999,
        u64::MAX - 1,
    ];
    for n in samples {
        assert_eq!(decimal_string(n), n.to_string());
    }
}
