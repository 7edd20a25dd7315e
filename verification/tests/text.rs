use puxbay_sdk::text::{push_decimal, push_i32, starts_with};

fn decimal_of(n: u64) -> String {
    let mut out = String::new();
    push_decimal(&mut out, n);
    out
}

fn signed_decimal_of(n: i32) -> String {
    let mut out = String::new();
    push_i32(&mut out, n);
    out
}

#[test]
fn zero_renders_as_a_single_digit() {
    assert_eq!(decimal_of(0), "0");
}

#[test]
fn single_digits_render_as_themselves() {
    for d in 0..10u64 {
        assert_eq!(decimal_of(d), format!("{}", d));
    }
}

#[test]
fn multi_digit_numbers_keep_their_order() {
    assert_eq!(decimal_of(10), "10");
    assert_eq!(decimal_of(404), "404");
    assert_eq!(decimal_of(12345), "12345");
    assert_eq!(decimal_of(1_000_000), "1000000");
}

#[test]
fn largest_u64_renders_in_full() {
    assert_eq!(decimal_of(u64::MAX), "18446744073709551615");
}

#[test]
fn push_decimal_appends_to_what_is_there() {
    let mut out = String::from("page=");
    push_decimal(&mut out, 7);
    assert_eq!(out, "page=7");
}

#[test]
fn negative_numbers_carry_a_minus_sign() {
    assert_eq!(signed_decimal_of(-1), "-1");
    assert_eq!(signed_decimal_of(-250), "-250");
}

#[test]
fn extreme_i32_values_render_in_full() {
    assert_eq!(signed_decimal_of(i32::MAX), "2147483647");
    assert_eq!(signed_decimal_of(i32::MIN), "-2147483648");
    assert_eq!(signed_decimal_of(0), "0");
}

#[test]
fn push_i32_agrees_with_std_formatting() {
    for n in [-100_000, -99, -10, -9, 0, 9, 10, 99, 100, 65_535, 1_234_567] {
        assert_eq!(signed_decimal_of(n), format!("{}", n));
    }
}

#[test]
fn starts_with_accepts_a_prefix() {
    assert!(starts_with("pb_live_abc", "pb_"));
    assert!(starts_with("pb_", "pb_"));
    assert!(starts_with("anything", ""));
    assert!(starts_with("", ""));
}

#[test]
fn starts_with_rejects_what_is_not_a_prefix() {
    assert!(!starts_with("pb", "pb_"));
    assert!(!starts_with("", "pb_"));
    assert!(!starts_with("PB_live", "pb_"));
    assert!(!starts_with("xpb_live", "pb_"));
    assert!(!starts_with("pc_live", "pb_"));
}

#[test]
fn starts_with_compares_characters_not_bytes() {
    assert!(starts_with("\u{e9}t\u{e9}", "\u{e9}t"));
    assert!(!starts_with("\u{e9}t\u{e9}", "et"));
    assert!(!starts_with("\u{e9}", "\u{e9}\u{e9}"));
}
