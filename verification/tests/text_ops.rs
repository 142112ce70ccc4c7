use jabroni::text::{hex_encode, i64_to_dec, join_comma_strs, str_eq, u64_to_dec};

#[test]
fn decimal_of_zero() {
    assert_eq!(i64_to_dec(0).as_str(), "0");
    assert_eq!(u64_to_dec(0).as_str(), "0");
}

#[test]
fn decimal_of_positive() {
    assert_eq!(i64_to_dec(42).as_str(), "42");
    assert_eq!(u64_to_dec(1234567890).as_str(), "1234567890");
}

#[test]
fn decimal_of_negative() {
    assert_eq!(i64_to_dec(-7).as_str(), "-7");
    assert_eq!(i64_to_dec(-1000).as_str(), "-1000");
}

#[test]
fn decimal_of_extremes() {
    assert_eq!(i64_to_dec(i64::MAX).as_str(), "9223372036854775807");
    assert_eq!(i64_to_dec(i64::MIN).as_str(), "-9223372036854775808");
    assert_eq!(u64_to_dec(u64::MAX).as_str(), "18446744073709551615");
}

#[test]
fn hex_of_empty() {
    assert_eq!(hex_encode(&Vec::new()).as_str(), "");
}

#[test]
fn hex_of_bytes() {
    assert_eq!(hex_encode(&vec![0xde, 0xad, 0xbe, 0xef]).as_str(), "deadbeef");
    assert_eq!(hex_encode(&vec![0x00, 0x0f, 0xa0]).as_str(), "000fa0");
}

#[test]
fn join_of_empty_and_single() {
    let none: Vec<String> = Vec::new();
    assert_eq!(join_comma_strs(&none).as_str(), "");
    assert_eq!(join_comma_strs(&vec!["solo".to_string()]).as_str(), "solo");
}

#[test]
fn join_of_many() {
    let parts = vec!["a".to_string(), "b".to_string(), "c".to_string()];
    assert_eq!(join_comma_strs(&parts).as_str(), "a,b,c");
}

#[test]
fn string_equality() {
    assert!(str_eq("abc", "abc"));
    assert!(!str_eq("abc", "abd"));
    assert!(!str_eq("abc", "abcd"));
    assert!(str_eq("", ""));
}
