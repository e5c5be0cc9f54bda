use projwarrior::text::{contains, decimal_string, join, parse_u32, signed_decimal_string, str_eq};

#[test]
fn decimal_strings() {
    assert_eq!(decimal_string(0), "0");
    assert_eq!(decimal_string(7), "7");
    assert_eq!(decimal_string(10), "10");
    assert_eq!(decimal_string(1234567890), "1234567890");
    assert_eq!(decimal_string(u64::MAX), u64::MAX.to_string());
}

#[test]
fn signed_decimal_strings() {
    assert_eq!(signed_decimal_string(0), "0");
    assert_eq!(signed_decimal_string(-5), "-5");
    assert_eq!(signed_decimal_string(42), "42");
    assert_eq!(signed_decimal_string(i64::MIN), i64::MIN.to_string());
}

#[test]
fn parse_u32_matches_std() {
    for s in ["0", "1", "+7", "007", "4294967295", "4294967296", "", "+", "-1", "12a", " 1", "١"] {
        assert_eq!(parse_u32(s), s.parse::<u32>().ok(), "input {s:?}");
    }
}

#[test]
fn parse_reads_back_decimal() {
    for n in [0u32, 9, 10, 65535, u32::MAX] {
        assert_eq!(parse_u32(&decimal_string(n as u64)), Some(n));
    }
}

#[test]
fn infix_search() {
    assert!(contains("Project 1", "ject"));
    assert!(contains("Project 1", ""));
    assert!(contains("abc", "abc"));
    assert!(!contains("abc", "abcd"));
    assert!(!contains("Project", "project"));
    assert!(contains("héllo wörld", "ö"));
}

#[test]
fn string_equality() {
    assert!(str_eq("same", "same"));
    assert!(!str_eq("same", "Same"));
    assert!(!str_eq("a", "ab"));
}

#[test]
fn joining() {
    let parts = vec!["a".to_string(), "b".to_string(), "c".to_string()];
    assert_eq!(join(&parts, ", "), "a, b, c");
    assert_eq!(join(&parts[..1], ", "), "a");
    assert_eq!(join(&[], ", "), "");
}
