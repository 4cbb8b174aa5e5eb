use mainlogic::text::push_decimal;
use mainlogic::text::push_hex;
use mainlogic::text::push_signed_decimal;

fn decimal(n: u64) -> String {
    let mut out = String::new();
    push_decimal(&mut out, n);
    out
}

fn signed(n: i64) -> String {
    let mut out = String::new();
    push_signed_decimal(&mut out, n);
    out
}

fn hex(n: u64) -> String {
    let mut out = String::new();
    push_hex(&mut out, n);
    out
}

#[test]
fn decimal_text_of_small_and_large_numbers() {
    assert_eq!(decimal(0), "0");
    assert_eq!(decimal(7), "7");
    assert_eq!(decimal(10), "10");
    assert_eq!(decimal(1009), "1009");
    assert_eq!(decimal(u64::MAX), "18446744073709551615");
}

#[test]
fn decimal_text_agrees_with_the_standard_library() {
    let mut n: u64 = 1;
    for _ in 0..64 {
        assert_eq!(decimal(n), n.to_string());
        assert_eq!(decimal(n - 1), (n - 1).to_string());
        n = n.wrapping_mul(2);
    }
}

#[test]
fn signed_decimal_text_has_a_minus_for_negative_numbers() {
    assert_eq!(signed(0), "0");
    assert_eq!(signed(-1), "-1");
    assert_eq!(signed(42), "42");
    assert_eq!(signed(-120), "-120");
    assert_eq!(signed(i64::MAX), "9223372036854775807");
    assert_eq!(signed(i64::MIN), "-9223372036854775808");
    assert_eq!(signed(i64::MIN + 1), "-9223372036854775807");
}

#[test]
fn hexadecimal_text_is_lower_case_without_leading_zeros() {
    assert_eq!(hex(0), "0");
    assert_eq!(hex(9), "9");
    assert_eq!(hex(10), "a");
    assert_eq!(hex(15), "f");
    assert_eq!(hex(16), "10");
    assert_eq!(hex(255), "ff");
    assert_eq!(hex(0xdead_beef), "deadbeef");
    assert_eq!(hex(0x0123_4567_89ab_cdef), "123456789abcdef");
    assert_eq!(hex(u64::MAX), "ffffffffffffffff");
}

#[test]
fn text_is_appended_to_what_is_there() {
    let mut out = String::from("n = ");
    push_decimal(&mut out, 12);
    out.push_str(", ");
    push_signed_decimal(&mut out, -3);
    out.push_str(", 0x");
    push_hex(&mut out, 171);
    assert_eq!(out, "n = 12, -3, 0xab");
}
