use secalc_core::text::{append_decimal, join_texts, parse_u64, text_contains, text_eq, u64_to_decimal};

#[test]
fn parse_u64_accepts_decimal_numbers() {
    assert_eq!(parse_u64("0"), Some(0));
    assert_eq!(parse_u64("42"), Some(42));
    assert_eq!(parse_u64("+5"), Some(5));
    assert_eq!(parse_u64("007"), Some(7));
    assert_eq!(parse_u64("18446744073709551615"), Some(u64::MAX));
}

#[test]
fn parse_u64_rejects_other_text() {
    assert_eq!(parse_u64(""), None);
    assert_eq!(parse_u64("+"), None);
    assert_eq!(parse_u64("-1"), None);
    assert_eq!(parse_u64(" 1"), None);
    assert_eq!(parse_u64("1.5"), None);
    assert_eq!(parse_u64("12a"), None);
    assert_eq!(parse_u64("18446744073709551616"), None);
}

#[test]
fn parse_u64_agrees_with_std() {
    for s in ["", "+", "+0", "0", "10", "-0", "99999999999999999999", "4294967296", "x", "++1"] {
        assert_eq!(parse_u64(s), s.parse::<u64>().ok(), "{}", s);
    }
}

#[test]
fn decimal_notation() {
    assert_eq!(u64_to_decimal(0), "0");
    assert_eq!(u64_to_decimal(7), "7");
    assert_eq!(u64_to_decimal(1234), "1234");
    assert_eq!(u64_to_decimal(u64::MAX), "18446744073709551615");
    let mut s = String::from("id@");
    append_decimal(&mut s, 905);
    assert_eq!(s, "id@905");
}

#[test]
fn decimal_round_trip() {
    for n in [0u64, 1, 9, 10, 99, 100, 65535, 1 << 40, u64::MAX - 1, u64::MAX] {
        assert_eq!(parse_u64(&u64_to_decimal(n)), Some(n));
    }
}

#[test]
fn join_and_equality() {
    assert_eq!(join_texts("Large", "Block"), "LargeBlock");
    assert_eq!(join_texts("", ""), "");
    assert!(text_eq("Hydrogen", "Hydrogen"));
    assert!(!text_eq("Hydrogen", "hydrogen"));
    assert!(!text_eq("a", "ab"));
}

#[test]
fn contains() {
    assert!(text_contains("MyObjectBuilder_SmallMissileLauncher.LargeRailgun", "Railgun"));
    assert!(text_contains("Railgun", "Railgun"));
    assert!(text_contains("anything", ""));
    assert!(!text_contains("Rail", "Railgun"));
    assert!(!text_contains("LargeGatlingTurret", "Railgun"));
    assert!(text_contains("Ünïcode Railgun", "Railgun"));
}
