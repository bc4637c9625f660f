use later::decimal::{decimal_string, push_decimal};

#[test]
fn zero_is_one_digit() {
    assert_eq!(decimal_string(0), "0");
}

#[test]
fn single_digits() {
    assert_eq!(decimal_string(1), "1");
    assert_eq!(decimal_string(7), "7");
    assert_eq!(decimal_string(9), "9");
}

#[test]
fn ten_has_two_digits() {
    assert_eq!(decimal_string(10), "10");
}

#[test]
fn digits_come_most_significant_first() {
    assert_eq!(decimal_string(1234567890), "1234567890");
    assert_eq!(decimal_string(1002), "1002");
}

#[test]
fn largest_number() {
    assert_eq!(decimal_string(usize::MAX), usize::MAX.to_string());
}

#[test]
fn numerals_agree_with_std() {
    let mut n: usize = 0;
    while n < 2000 {
        assert_eq!(decimal_string(n), n.to_string());
        n += 1;
    }
}

#[test]
fn push_keeps_what_was_there() {
    let mut out = String::from("no. ");
    push_decimal(&mut out, 42);
    assert_eq!(out, "no. 42");
}
