use restock::text::decimal_text;
use restock::text::push_decimal;
use restock::text::signed_decimal_text;

#[test]
fn zero_is_one_digit() {
    assert_eq!(decimal_text(0), "0");
    assert_eq!(signed_decimal_text(0), "0");
}

#[test]
fn digits_come_most_significant_first() {
    assert_eq!(decimal_text(7), "7");
    assert_eq!(decimal_text(10), "10");
    assert_eq!(decimal_text(1234567890), "1234567890");
    assert_eq!(decimal_text(1_700_000_000_000), "1700000000000");
}

#[test]
fn largest_unsigned_number_has_thirty_nine_digits() {
    let text = decimal_text(u128::MAX);
    assert_eq!(text, "340282366920938463463374607431768211455");
    assert_eq!(text.len(), 39);
}

#[test]
fn negative_numbers_carry_a_minus_sign() {
    assert_eq!(signed_decimal_text(-1), "-1");
    assert_eq!(signed_decimal_text(-42), "-42");
    assert_eq!(signed_decimal_text(42), "42");
}

#[test]
fn extremes_of_signed_numbers() {
    assert_eq!(signed_decimal_text(i64::MAX), "9223372036854775807");
    assert_eq!(signed_decimal_text(i64::MIN), "-9223372036854775808");
}

#[test]
fn digits_are_appended_to_what_is_there() {
    let mut out = String::from("ts=");
    push_decimal(&mut out, 905);
    assert_eq!(out, "ts=905");
    push_decimal(&mut out, 0);
    assert_eq!(out, "ts=9050");
}

#[test]
fn decimal_text_agrees_with_the_standard_rendering() {
    let samples: [u128; 8] = [1, 9, 99, 100, 101, 65_535, 4_294_967_296, 10u128.pow(38)];
    for n in samples {
        assert_eq!(decimal_text(n), format!("{}", n));
    }
    let signed: [i64; 6] = [-9, -10, -11, -65_536, 65_536, -4_294_967_296];
    for n in signed {
        assert_eq!(signed_decimal_text(n), format!("{}", n));
    }
}
