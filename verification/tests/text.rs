use usv_ledger::text::{ascii_string, lower_hex_prefix, push_decimal, push_signed_decimal};

fn decimal(n: u64) -> String {
    let mut out = Vec::new();
    push_decimal(&mut out, n);
    String::from_utf8(out).unwrap()
}

fn signed(n: i64) -> String {
    let mut out = Vec::new();
    push_signed_decimal(&mut out, n);
    String::from_utf8(out).unwrap()
}

#[test]
fn decimal_has_no_leading_zeros() {
    assert_eq!(decimal(0), "0");
    assert_eq!(decimal(7), "7");
    assert_eq!(decimal(10), "10");
    assert_eq!(decimal(1000), "1000");
    assert_eq!(decimal(4_294_967_295), "4294967295");
    assert_eq!(decimal(u64::MAX), "18446744073709551615");
}

#[test]
fn decimal_is_appended_to_what_is_there() {
    let mut out = b"n=".to_vec();
    push_decimal(&mut out, 42);
    assert_eq!(out, b"n=42");
}

#[test]
fn signed_decimal_puts_a_minus_before_a_negative_number() {
    assert_eq!(signed(0), "0");
    assert_eq!(signed(1_756_164_156), "1756164156");
    assert_eq!(signed(-1), "-1");
    assert_eq!(signed(i64::MAX), "9223372036854775807");
    assert_eq!(signed(i64::MIN), "-9223372036854775808");
}

#[test]
fn decimal_agrees_with_the_standard_formatting() {
    for n in [0u64, 9, 10, 11, 99, 100, 101, 65_535, 65_536, 999_999_999, 1_000_000_000] {
        assert_eq!(decimal(n), format!("{}", n));
    }
    for n in [-1_000_000i64, -10, -9, 9, 10, 1_700_000_000] {
        assert_eq!(signed(n), format!("{}", n));
    }
}

#[test]
fn hex_writes_two_lower_case_digits_for_each_byte() {
    assert_eq!(lower_hex_prefix(&[10, 20, 30], 6), "0a141e");
    assert_eq!(lower_hex_prefix(&[0x00, 0xff, 0x9a, 0xa9], 8), "00ff9aa9");
    assert_eq!(lower_hex_prefix(&[], 0), "");
}

#[test]
fn hex_prefix_may_stop_in_the_middle_of_a_byte() {
    assert_eq!(lower_hex_prefix(&[0xab, 0xcd], 3), "abc");
    assert_eq!(lower_hex_prefix(&[0xab, 0xcd], 0), "");
    assert_eq!(lower_hex_prefix(&[0xab, 0xcd], 1), "a");
}

#[test]
fn ascii_string_spells_its_bytes() {
    assert_eq!(ascii_string(&b"BATCH_17".to_vec()), "BATCH_17");
    assert_eq!(ascii_string(&Vec::new()), "");
}
