use vk_bot_context::numtext::{i32_to_dec, i64_to_dec, u64_to_dec};

#[test]
fn zero_is_one_digit() {
    assert_eq!(u64_to_dec(0).as_str(), "0");
    assert_eq!(i64_to_dec(0).as_str(), "0");
}

#[test]
fn single_digits() {
    assert_eq!(u64_to_dec(7).as_str(), "7");
    assert_eq!(i64_to_dec(9).as_str(), "9");
}

#[test]
fn multi_digit_positive() {
    assert_eq!(u64_to_dec(1234567890).as_str(), "1234567890");
    assert_eq!(i64_to_dec(100).as_str(), "100");
}

#[test]
fn negative_values() {
    assert_eq!(i64_to_dec(-1).as_str(), "-1");
    assert_eq!(i64_to_dec(-987).as_str(), "-987");
}

#[test]
fn extreme_values() {
    assert_eq!(i64_to_dec(i64::MIN).as_str(), "-9223372036854775808");
    assert_eq!(i64_to_dec(i64::MAX).as_str(), "9223372036854775807");
    assert_eq!(u64_to_dec(u64::MAX).as_str(), "18446744073709551615");
    assert_eq!(i32_to_dec(i32::MIN).as_str(), "-2147483648");
    assert_eq!(i32_to_dec(i32::MAX).as_str(), "2147483647");
}
