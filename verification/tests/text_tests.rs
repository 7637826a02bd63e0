use live_wallpaper::text::{decimal_i64, decimal_u64, decode_utf16, encode_utf16};

#[test]
fn decimal_of_unsigned_numbers() {
    assert_eq!(decimal_u64(0), "0");
    assert_eq!(decimal_u64(7), "7");
    assert_eq!(decimal_u64(10), "10");
    assert_eq!(decimal_u64(1725029869), "1725029869");
    assert_eq!(decimal_u64(u64::MAX), "18446744073709551615");
}

#[test]
fn decimal_of_signed_numbers() {
    assert_eq!(decimal_i64(0), "0");
    assert_eq!(decimal_i64(-5), "-5");
    assert_eq!(decimal_i64(123), "123");
    assert_eq!(decimal_i64(i64::MIN), "-9223372036854775808");
    assert_eq!(decimal_i64(i64::MAX), "9223372036854775807");
}

#[test]
fn utf16_encoding_matches_std() {
    for s in ["", "abc", "C:\\Videos\\wave.mp4", "黑风雷", "👨‍👩‍👧‍👦 ok"] {
        let expected: Vec<u16> = s.encode_utf16().collect();
        assert_eq!(encode_utf16(s), expected);
    }
}

#[test]
fn utf16_surrogate_pair_units() {
    assert_eq!(encode_utf16("😀"), vec![0xD83D, 0xDE00]);
}

#[test]
fn utf16_decoding_round_trips() {
    for s in ["", "plain", "ünïcødé", "😀x😀"] {
        let units = encode_utf16(s);
        assert_eq!(decode_utf16(&units), s);
    }
}

#[test]
fn lone_surrogates_decode_to_replacement() {
    let units = vec![0x0041, 0xD800, 0x0042, 0xDC00, 0xD83D];
    assert_eq!(decode_utf16(&units), String::from_utf16_lossy(&units));
    assert_eq!(decode_utf16(&units), "A\u{FFFD}B\u{FFFD}\u{FFFD}");
}
