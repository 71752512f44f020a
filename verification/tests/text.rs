use lttng_ust_generate::text::{write_decimal, write_signed_decimal};

fn decimal(n: u64) -> String {
    let mut out = String::new();
    write_decimal(&mut out, n);
    out
}

fn signed(n: i32) -> String {
    let mut out = String::new();
    write_signed_decimal(&mut out, n);
    out
}

#[test]
fn decimal_of_single_digits() {
    let all: Vec<String> = (0..10).map(decimal).collect();
    assert_eq!(all, vec!["0", "1", "2", "3", "4", "5", "6", "7", "8", "9"]);
}

#[test]
fn decimal_has_no_padding() {
    assert_eq!(decimal(10), "10");
    assert_eq!(decimal(99), "99");
    assert_eq!(decimal(100), "100");
    assert_eq!(decimal(1009), "1009");
    assert_eq!(decimal(1234567890), "1234567890");
    assert_eq!(decimal(u64::MAX), "18446744073709551615");
}

#[test]
fn decimal_agrees_with_the_standard_formatting() {
    for n in (0..5000).chain([65535, 65536, 4294967295, 4294967296]) {
        assert_eq!(decimal(n), n.to_string());
    }
}

#[test]
fn decimal_is_appended_to_what_is_there() {
    let mut out = String::from("a");
    write_decimal(&mut out, 12);
    write_decimal(&mut out, 0);
    assert_eq!(out, "a120");
}

#[test]
fn signed_decimal_has_a_minus_sign_only_below_zero() {
    assert_eq!(signed(0), "0");
    assert_eq!(signed(7), "7");
    assert_eq!(signed(-7), "-7");
    assert_eq!(signed(-10), "-10");
    assert_eq!(signed(i32::MAX), "2147483647");
    assert_eq!(signed(i32::MIN), "-2147483648");
}

#[test]
fn signed_decimal_is_appended_to_what_is_there() {
    let mut out = String::from("[u8; ");
    write_signed_decimal(&mut out, -42);
    assert_eq!(out, "[u8; -42");
}
