use ppp_client::text::{decimal, format_radix, parse_u32, str_eq};

#[test]
fn str_eq_compares_characters() {
    assert!(str_eq("party", "party"));
    assert!(!str_eq("party", "part"));
    assert!(!str_eq("party", "Party"));
    assert!(str_eq("", ""));
}

#[test]
fn decimal_renders_without_padding() {
    assert_eq!(decimal(0), "0");
    assert_eq!(decimal(7), "7");
    assert_eq!(decimal(1234), "1234");
    assert_eq!(decimal(u32::MAX), "4294967295");
}

#[test]
fn format_radix_pads_with_zeros() {
    assert_eq!(format_radix(255, 16, 4), "00ff");
    assert_eq!(format_radix(0x12345, 16, 4), "12345");
    assert_eq!(format_radix(0, 16, 8), "00000000");
    assert_eq!(format_radix(0xdeadbeef, 16, 8), "deadbeef");
    assert_eq!(format_radix(42, 10, 5), "00042");
}

#[test]
fn parse_u32_accepts_what_from_str_radix_accepts() {
    let cases: Vec<(&str, u32)> = vec![
        ("42", 10), ("+7", 10), ("", 10), ("+", 10), ("-1", 10), ("-", 10),
        ("4294967295", 10), ("4294967296", 10), ("99999999999x", 10), ("ff", 16),
        ("FF", 16), ("fg", 16), (" 1", 10), ("1 ", 10), ("1a", 10), ("00012", 10),
        ("z", 36), ("Z", 36), ("ffffffff", 16), ("100000000", 16), ("++1", 10), ("é", 10),
    ];
    for (s, radix) in cases {
        assert_eq!(parse_u32(s, radix), u32::from_str_radix(s, radix).ok(), "{:?} in base {}", s, radix);
    }
}

#[test]
fn parse_u32_examples() {
    assert_eq!(parse_u32("42", 10), Some(42));
    assert_eq!(parse_u32("+7", 10), Some(7));
    assert_eq!(parse_u32("", 10), None);
    assert_eq!(parse_u32("-1", 10), None);
    assert_eq!(parse_u32("4294967296", 10), None);
    assert_eq!(parse_u32("D35C", 16), Some(0xd35c));
}

#[test]
fn rendering_then_parsing_gives_the_number_back() {
    for n in [0u32, 1, 9, 10, 255, 4096, 65535, 123456789, u32::MAX] {
        assert_eq!(parse_u32(&decimal(n), 10), Some(n));
        assert_eq!(parse_u32(&format_radix(n, 16, 8), 16), Some(n));
        assert_eq!(parse_u32(&format_radix(n, 10, 12), 10), Some(n));
    }
}
