use ton_wallet_client::codec::{byte_to_i8, chars_of, crc16_checksum, format_i8, i8_to_byte, parse_i8};

#[test]
fn decimal_rendering_of_signed_bytes() {
    assert_eq!(format_i8(0), "0");
    assert_eq!(format_i8(7), "7");
    assert_eq!(format_i8(10), "10");
    assert_eq!(format_i8(99), "99");
    assert_eq!(format_i8(100), "100");
    assert_eq!(format_i8(127), "127");
    assert_eq!(format_i8(-1), "-1");
    assert_eq!(format_i8(-10), "-10");
    assert_eq!(format_i8(-128), "-128");
}

#[test]
fn decimal_rendering_agrees_with_the_standard_library() {
    for v in i8::MIN..=i8::MAX {
        assert_eq!(format_i8(v), v.to_string());
    }
}

#[test]
fn decimal_parsing_accepts_signs_and_leading_zeros() {
    assert_eq!(parse_i8("0"), Some(0));
    assert_eq!(parse_i8("-0"), Some(0));
    assert_eq!(parse_i8("+0"), Some(0));
    assert_eq!(parse_i8("+5"), Some(5));
    assert_eq!(parse_i8("007"), Some(7));
    assert_eq!(parse_i8("-1"), Some(-1));
    assert_eq!(parse_i8("127"), Some(127));
    assert_eq!(parse_i8("-128"), Some(-128));
    assert_eq!(parse_i8("-0000128"), Some(-128));
    assert_eq!(parse_i8("0000000000000000000000000127"), Some(127));
}

#[test]
fn decimal_parsing_refuses_everything_else() {
    assert_eq!(parse_i8(""), None);
    assert_eq!(parse_i8("+"), None);
    assert_eq!(parse_i8("-"), None);
    assert_eq!(parse_i8("128"), None);
    assert_eq!(parse_i8("+128"), None);
    assert_eq!(parse_i8("-129"), None);
    assert_eq!(parse_i8("1000"), None);
    assert_eq!(parse_i8("99999999999999999999999999"), None);
    assert_eq!(parse_i8("1a"), None);
    assert_eq!(parse_i8(" 1"), None);
    assert_eq!(parse_i8("1 "), None);
    assert_eq!(parse_i8("--1"), None);
    assert_eq!(parse_i8("+-1"), None);
    assert_eq!(parse_i8("1_0"), None);
    assert_eq!(parse_i8("\u{0661}"), None);
}

#[test]
fn decimal_parsing_agrees_with_the_standard_library() {
    let texts = [
        "", "+", "-", "0", "-0", "+0", "12", "+12", "-12", "127", "128", "-128", "-129", "0128",
        "00127", "1e1", "0x10", "١", "1\n", "255", "-255", "+127", "+0127",
    ];
    for text in texts {
        assert_eq!(parse_i8(text), text.parse::<i8>().ok(), "{:?}", text);
    }
    for v in i8::MIN..=i8::MAX {
        assert_eq!(parse_i8(&v.to_string()), Some(v));
    }
}

#[test]
fn decimal_roundtrip_for_every_signed_byte() {
    for v in i8::MIN..=i8::MAX {
        assert_eq!(parse_i8(&format_i8(v)), Some(v));
    }
}

#[test]
fn characters_of_a_text() {
    assert_eq!(chars_of(""), Vec::<char>::new());
    assert_eq!(chars_of("0:é"), vec!['0', ':', 'é']);
}

#[test]
fn signed_and_unsigned_bytes() {
    assert_eq!(byte_to_i8(0), 0);
    assert_eq!(byte_to_i8(127), 127);
    assert_eq!(byte_to_i8(128), -128);
    assert_eq!(byte_to_i8(255), -1);
    assert_eq!(i8_to_byte(0), 0);
    assert_eq!(i8_to_byte(127), 127);
    assert_eq!(i8_to_byte(-128), 128);
    assert_eq!(i8_to_byte(-1), 255);
    for b in 0..=255u8 {
        assert_eq!(byte_to_i8(b), b as i8);
        assert_eq!(i8_to_byte(byte_to_i8(b)), b);
    }
}

#[test]
fn crc16_of_known_inputs() {
    assert_eq!(crc16_checksum(&[]), 0);
    assert_eq!(crc16_checksum(b"123456789"), 0x31c3);
    assert_eq!(crc16_checksum(b"A"), 0x58e5);
    assert_eq!(crc16_checksum(&[0u8; 34]), 0);
    let mut body = vec![0x11u8, 0xff];
    body.extend_from_slice(&[0x33u8; 32]);
    assert_eq!(crc16_checksum(&body), 0x4bc5);
}
