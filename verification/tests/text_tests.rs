use crowley::text::{decimal_string, signed_decimal_string, trim_str};

#[test]
fn decimal_rendering() {
    assert_eq!(decimal_string(0), "0");
    assert_eq!(decimal_string(7), "7");
    assert_eq!(decimal_string(42), "42");
    assert_eq!(decimal_string(200_000), "200000");
    assert_eq!(decimal_string(u64::MAX), u64::MAX.to_string());
}

#[test]
fn signed_decimal_rendering() {
    assert_eq!(signed_decimal_string(0), "0");
    assert_eq!(signed_decimal_string(-1), "-1");
    assert_eq!(signed_decimal_string(137), "137");
    assert_eq!(signed_decimal_string(i64::MIN), i64::MIN.to_string());
}

#[test]
fn trimming_matches_std() {
    for s in ["", "   ", " a ", "\t\nx y\r\n", "\u{a0}z\u{3000}", "é ", "  ü", "none"] {
        assert_eq!(trim_str(s), s.trim());
    }
}
