use scouter::text::{i64_to_string, str_eq, u64_to_string};

#[test]
fn unsigned_decimal_rendering() {
    assert_eq!(u64_to_string(0), "0");
    assert_eq!(u64_to_string(7), "7");
    assert_eq!(u64_to_string(10), "10");
    assert_eq!(u64_to_string(1234), "1234");
    assert_eq!(u64_to_string(u64::MAX), "18446744073709551615");
}

#[test]
fn signed_decimal_rendering() {
    assert_eq!(i64_to_string(0), "0");
    assert_eq!(i64_to_string(42), "42");
    assert_eq!(i64_to_string(-45), "-45");
    assert_eq!(i64_to_string(i64::MIN), "-9223372036854775808");
    assert_eq!(i64_to_string(i64::MAX), "9223372036854775807");
}

#[test]
fn string_equality_by_characters() {
    assert!(str_eq("", ""));
    assert!(str_eq("abc", "abc"));
    assert!(!str_eq("abc", "abd"));
    assert!(!str_eq("abc", "ab"));
    assert!(str_eq("na\u{ef}ve", "na\u{ef}ve"));
    assert!(!str_eq("na\u{ef}ve", "naive"));
}
