use openpid_docgen::text::{decimal_string, digit_str, push_decimal};

#[test]
fn decimal_of_zero_is_one_digit() {
    assert_eq!(decimal_string(0), "0");
}

#[test]
fn decimal_of_single_digits() {
    for d in 0..10u64 {
        assert_eq!(decimal_string(d), format!("{}", d));
        assert_eq!(digit_str(d), format!("{}", d));
    }
}

#[test]
fn decimal_has_no_leading_zeros() {
    assert_eq!(decimal_string(10), "10");
    assert_eq!(decimal_string(100), "100");
    assert_eq!(decimal_string(2000), "2000");
    assert_eq!(decimal_string(1005), "1005");
}

#[test]
fn decimal_of_the_largest_numbers() {
    assert_eq!(decimal_string(u32::MAX as u64), "4294967295");
    assert_eq!(decimal_string(u64::MAX), "18446744073709551615");
}

#[test]
fn decimal_agrees_with_std_formatting() {
    let mut n: u64 = 1;
    while n < u64::MAX / 7 {
        assert_eq!(decimal_string(n), format!("{}", n));
        assert_eq!(decimal_string(n - 1), format!("{}", n - 1));
        n = n * 7 + 3;
    }
}

#[test]
fn push_decimal_appends_to_what_is_there() {
    let mut out = String::from("width:");
    push_decimal(&mut out, 496);
    assert_eq!(out, "width:496");
    push_decimal(&mut out, 0);
    assert_eq!(out, "width:4960");
}
