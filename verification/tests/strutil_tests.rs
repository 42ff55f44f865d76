use coinbase_v3::strutil::{i64_to_dec, parse_int_in, str_eq, u64_to_dec};

#[test]
fn test_decimal_rendering() {
    assert_eq!(u64_to_dec(0), "0");
    assert_eq!(u64_to_dec(12345), "12345");
    assert_eq!(u64_to_dec(u64::MAX), "18446744073709551615");
    assert_eq!(i64_to_dec(-7), "-7");
    assert_eq!(i64_to_dec(i64::MIN), "-9223372036854775808");
}

#[test]
fn test_integer_token_parsing() {
    assert_eq!(parse_int_in("403", -2147483648, 2147483647), Some(403));
    assert_eq!(parse_int_in("-12", -2147483648, 2147483647), Some(-12));
    assert_eq!(parse_int_in("2147483648", -2147483648, 2147483647), None);
    assert_eq!(parse_int_in("4.5", -2147483648, 2147483647), None);
    assert_eq!(parse_int_in("-", -2147483648, 2147483647), None);
    assert_eq!(parse_int_in("", -2147483648, 2147483647), None);
}

#[test]
fn test_str_eq() {
    assert!(str_eq("wallet:accounts:read", "wallet:accounts:read"));
    assert!(!str_eq("wallet", "wallets"));
    assert!(!str_eq("a", "b"));
    assert!(str_eq("", ""));
}
