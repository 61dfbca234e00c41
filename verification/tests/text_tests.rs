use copytej::text::{contains, hex_bytes, hex_u64_fixed, parse_u64, u64_to_decimal};

#[test]
fn decimal_rendering() {
    assert_eq!(u64_to_decimal(0), "0");
    assert_eq!(u64_to_decimal(7), "7");
    assert_eq!(u64_to_decimal(10), "10");
    assert_eq!(u64_to_decimal(1234567890), "1234567890");
    assert_eq!(u64_to_decimal(u64::MAX), u64::MAX.to_string());
}

#[test]
fn decimal_parsing_agrees_with_std() {
    for s in [
        "0", "42", "+42", "007", "", "+", "-1", "-0", " 1", "1 ", "12a", "18446744073709551615",
        "18446744073709551616", "99999999999999999999", "50000", "+0",
    ] {
        assert_eq!(parse_u64(s), s.parse::<u64>().ok(), "input {:?}", s);
    }
}

#[test]
fn substring_search() {
    assert!(contains("Operation cancelled", "cancelled"));
    assert!(contains("Source file size changed from 1 to 2", "size changed"));
    assert!(!contains("Read error", "cancelled"));
    assert!(contains("abc", ""));
    assert!(!contains("", "a"));
    assert!(!contains("can", "cancel"));
}

#[test]
fn hexadecimal_rendering() {
    assert_eq!(hex_bytes(&[0x00, 0x0f, 0xa5, 0xff]), "000fa5ff");
    assert_eq!(hex_u64_fixed(0xbeef, 8), "0000beef");
    assert_eq!(hex_u64_fixed(u64::MAX, 16), "ffffffffffffffff");
    assert_eq!(hex_u64_fixed(0x1234, 2), "34");
}
