use sms_relay::decimal::{decimal_len, push_decimal, push_zero_padded};

fn numeral(n: u32) -> String {
    let mut out = String::new();
    push_decimal(&mut out, n);
    out
}

fn padded(n: u32, width: usize) -> String {
    let mut out = String::new();
    push_zero_padded(&mut out, n, width);
    out
}

#[test]
fn numerals_have_no_leading_zeros() {
    assert_eq!(numeral(0), "0");
    assert_eq!(numeral(7), "7");
    assert_eq!(numeral(10), "10");
    assert_eq!(numeral(99), "99");
    assert_eq!(numeral(100), "100");
    assert_eq!(numeral(1969), "1969");
    assert_eq!(numeral(1_000_000), "1000000");
    assert_eq!(numeral(u32::MAX), "4294967295");
}

#[test]
fn numerals_agree_with_std() {
    for n in (0u32..200_000).chain([u32::MAX - 1, u32::MAX, 999_999_999, 1_000_000_000]) {
        assert_eq!(numeral(n), n.to_string());
        assert_eq!(decimal_len(n), n.to_string().len());
    }
}

#[test]
fn numerals_go_to_the_end_of_what_is_there() {
    let mut out = String::from("Sent: ");
    push_decimal(&mut out, 31);
    assert_eq!(out, "Sent: 31");
    push_zero_padded(&mut out, 7, 3);
    assert_eq!(out, "Sent: 31007");
}

#[test]
fn lengths_of_numerals() {
    assert_eq!(decimal_len(0), 1);
    assert_eq!(decimal_len(9), 1);
    assert_eq!(decimal_len(10), 2);
    assert_eq!(decimal_len(99), 2);
    assert_eq!(decimal_len(100), 3);
    assert_eq!(decimal_len(9_999), 4);
    assert_eq!(decimal_len(10_000), 5);
    assert_eq!(decimal_len(u32::MAX), 10);
}

#[test]
fn padding_fills_up_to_the_width() {
    assert_eq!(padded(0, 2), "00");
    assert_eq!(padded(5, 2), "05");
    assert_eq!(padded(12, 2), "12");
    assert_eq!(padded(0, 4), "0000");
    assert_eq!(padded(33, 4), "0033");
    assert_eq!(padded(2024, 4), "2024");
    assert_eq!(padded(1, 12), "000000000001");
}

#[test]
fn padding_leaves_longer_numerals_alone() {
    assert_eq!(padded(123, 2), "123");
    assert_eq!(padded(10_000, 4), "10000");
    assert_eq!(padded(7, 0), "7");
    assert_eq!(padded(7, 1), "7");
    assert_eq!(padded(u32::MAX, 4), "4294967295");
}

#[test]
fn padding_agrees_with_std() {
    for n in (0u32..20_000).chain([u32::MAX]) {
        assert_eq!(padded(n, 2), format!("{:02}", n));
        assert_eq!(padded(n, 4), format!("{:04}", n));
    }
}
