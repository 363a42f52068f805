//! Hex, decimal and trimming behaviour of the text codecs.

use kaspa_txgen::decimal::{parse_dec_u64, u64_to_dec};
use kaspa_txgen::errors::EngineError;
use kaspa_txgen::hexcode::{hex_decode, hex_encode};
use kaspa_txgen::strutil::trim_spaces;

#[test]
fn hex_encode_exact() {
    assert_eq!(hex_encode(&vec![]), "");
    assert_eq!(hex_encode(&vec![0u8, 255, 16]), "00ff10");
    assert_eq!(hex_encode(&vec![0xde, 0xad, 0xbe, 0xef]), "deadbeef");
}

#[test]
fn hex_decode_exact() {
    assert_eq!(hex_decode("00ff10").unwrap(), vec![0u8, 255, 16]);
    assert_eq!(hex_decode("DEADbeef").unwrap(), vec![0xde, 0xad, 0xbe, 0xef]);
    assert_eq!(hex_decode("").unwrap(), Vec::<u8>::new());
}

#[test]
fn hex_decode_rejects_odd_length() {
    assert_eq!(hex_decode("abc").unwrap_err(), EngineError::DecodeHex);
}

#[test]
fn hex_decode_rejects_bad_digit() {
    assert_eq!(hex_decode("zz").unwrap_err(), EngineError::DecodeHex);
    assert_eq!(hex_decode("0g").unwrap_err(), EngineError::DecodeHex);
}

#[test]
fn hex_round_trip_concrete() {
    let bytes: Vec<u8> = (0u8..=255).collect();
    let hexed = hex_encode(&bytes);
    assert_eq!(hex_decode(&hexed).unwrap(), bytes);
}

#[test]
fn decimal_render_exact() {
    assert_eq!(u64_to_dec(0), "0");
    assert_eq!(u64_to_dec(7), "7");
    assert_eq!(u64_to_dec(12345), "12345");
    assert_eq!(u64_to_dec(u64::MAX), "18446744073709551615");
}

#[test]
fn decimal_parse_exact() {
    assert_eq!(parse_dec_u64("0").unwrap(), 0);
    assert_eq!(parse_dec_u64("0012345").unwrap(), 12345);
    assert_eq!(parse_dec_u64("18446744073709551615").unwrap(), u64::MAX);
}

#[test]
fn decimal_parse_rejects() {
    assert_eq!(parse_dec_u64("").unwrap_err(), EngineError::DecodeNumber);
    assert_eq!(parse_dec_u64("12a").unwrap_err(), EngineError::DecodeNumber);
    assert_eq!(parse_dec_u64("-1").unwrap_err(), EngineError::DecodeNumber);
    assert_eq!(
        parse_dec_u64("18446744073709551616").unwrap_err(),
        EngineError::DecodeNumber
    );
}

#[test]
fn decimal_round_trip_concrete() {
    for n in [0u64, 1, 9, 10, 999, 1000, 123456789, u64::MAX] {
        assert_eq!(parse_dec_u64(&u64_to_dec(n)).unwrap(), n);
    }
}

#[test]
fn trim_strips_surrounding_whitespace() {
    assert_eq!(trim_spaces("  ab\n"), "ab");
    assert_eq!(trim_spaces("\t\r\n "), "");
    assert_eq!(trim_spaces("a b"), "a b");
    assert_eq!(trim_spaces("abc"), "abc");
}
