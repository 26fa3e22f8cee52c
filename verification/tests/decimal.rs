use cache_client::fmt::{i64_to_dec, u64_to_dec};

#[test]
fn u64_decimal_values() {
    assert_eq!(u64_to_dec(0), "0");
    assert_eq!(u64_to_dec(7), "7");
    assert_eq!(u64_to_dec(10), "10");
    assert_eq!(u64_to_dec(6379), "6379");
    assert_eq!(u64_to_dec(u64::MAX), "18446744073709551615");
}

#[test]
fn i64_decimal_values() {
    assert_eq!(i64_to_dec(0), "0");
    assert_eq!(i64_to_dec(6379), "6379");
    assert_eq!(i64_to_dec(-1), "-1");
    assert_eq!(i64_to_dec(i64::MAX), "9223372036854775807");
    assert_eq!(i64_to_dec(i64::MIN), "-9223372036854775808");
}
