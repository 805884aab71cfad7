use api_server::decimal::{parse_u32, u32_to_decimal};

#[test]
fn decimal_text_matches_to_string() {
    for n in [0u32, 1, 9, 10, 11, 99, 100, 4242, 65535, 1234567890, u32::MAX] {
        assert_eq!(u32_to_decimal(n), n.to_string());
    }
}

#[test]
fn parse_matches_std() {
    let cases = [
        "", "+", "-", "0", "+0", "-0", "00042", "4242", "+4242", "4294967295", "4294967296",
        "99999999999999999999", "12a", "a12", " 12", "12 ", "1_000", "++1", "+-1", "٣",
    ];
    for c in cases {
        assert_eq!(parse_u32(c), c.parse::<u32>().ok(), "case {:?}", c);
    }
}

#[test]
fn parse_reads_back_decimal_text() {
    for n in [0u32, 7, 31337, u32::MAX] {
        assert_eq!(parse_u32(&u32_to_decimal(n)), Some(n));
    }
}
