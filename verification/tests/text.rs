use httpmock::text::{push_decimal, same_text};

fn decimal_of(n: u64) -> String {
    let mut out = String::new();
    push_decimal(&mut out, n);
    out
}

#[test]
fn decimal_of_zero_is_one_digit() {
    assert_eq!(decimal_of(0), "0");
}

#[test]
fn decimal_of_small_numbers() {
    assert_eq!(decimal_of(7), "7");
    assert_eq!(decimal_of(9), "9");
    assert_eq!(decimal_of(10), "10");
    assert_eq!(decimal_of(202), "202");
    assert_eq!(decimal_of(404), "404");
}

#[test]
fn decimal_has_no_leading_zero() {
    assert_eq!(decimal_of(100), "100");
    assert_eq!(decimal_of(1000001), "1000001");
}

#[test]
fn decimal_of_the_largest_values() {
    assert_eq!(decimal_of(65535), "65535");
    assert_eq!(decimal_of(u64::MAX), "18446744073709551615");
}

#[test]
fn decimal_agrees_with_std_on_many_values() {
    let mut n: u64 = 1;
    for _ in 0..64 {
        assert_eq!(decimal_of(n), n.to_string());
        assert_eq!(decimal_of(n - 1), (n - 1).to_string());
        n = n.wrapping_mul(3).wrapping_add(7);
    }
}

#[test]
fn push_decimal_appends_to_what_is_there() {
    let mut out = String::from("status = ");
    push_decimal(&mut out, 500);
    assert_eq!(out, "status = 500");
}

#[test]
fn same_text_on_equal_and_unequal_slices() {
    assert!(same_text("GET", "GET"));
    assert!(same_text("", ""));
    assert!(!same_text("GET", "get"));
    assert!(!same_text("GET", "GE"));
    assert!(!same_text("GE", "GET"));
    assert!(!same_text("GET", "GEX"));
}

#[test]
fn same_text_beyond_ascii() {
    assert!(same_text("caf\u{e9}", "caf\u{e9}"));
    assert!(!same_text("caf\u{e9}", "cafe"));
    assert!(!same_text("\u{e9}", "\u{e8}"));
}
