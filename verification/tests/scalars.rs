//! The scalar encoders on concrete values: exact 16-byte big-endian
//! encodings, the decode inverse, decimal rendering, and hex.

use near_firehose::scalar::{decode_uint128, encode_uint128};
use near_firehose::emit::{dec_u64, hex_bytes};
use near_firehose::pb;

#[test]
fn uint128_encoding_is_sixteen_bytes_big_endian() {
    let e = encode_uint128(7);
    assert_eq!(e.len(), 16);
    let mut expected = vec![0u8; 16];
    expected[15] = 7;
    assert_eq!(e, expected);

    let e = encode_uint128(0);
    assert_eq!(e, vec![0u8; 16]);

    let e = encode_uint128(0x0102030405060708090a0b0c0d0e0f10);
    assert_eq!(
        e,
        vec![1, 2, 3, 4, 5, 6, 7, 8, 9, 10, 11, 12, 13, 14, 15, 16]
    );

    let e = encode_uint128(u128::MAX);
    assert_eq!(e, vec![0xff; 16]);

    let e = encode_uint128(256);
    assert_eq!(e[14], 1);
    assert_eq!(e[15], 0);
}

#[test]
fn uint128_round_trip_on_sample_values() {
    let samples: Vec<u128> = vec![
        0,
        1,
        7,
        255,
        256,
        u64::MAX as u128,
        (u64::MAX as u128) + 1,
        u128::MAX,
        u128::MAX - 1,
        0x00010000000000000000000000000000,
    ];
    for n in samples {
        let e = encode_uint128(n);
        assert_eq!(e.len(), 16);
        assert_eq!(decode_uint128(&e), n);
    }
}

#[test]
fn decimal_rendering_matches_expected_digits() {
    assert_eq!(dec_u64(0), b"0".to_vec());
    assert_eq!(dec_u64(7), b"7".to_vec());
    assert_eq!(dec_u64(10), b"10".to_vec());
    assert_eq!(dec_u64(100), b"100".to_vec());
    assert_eq!(dec_u64(90785021), b"90785021".to_vec());
    assert_eq!(dec_u64(u64::MAX), b"18446744073709551615".to_vec());
}

#[test]
fn hex_rendering_is_lowercase_high_nibble_first() {
    assert_eq!(hex_bytes(&vec![]), b"".to_vec());
    assert_eq!(hex_bytes(&vec![0xab, 0x00, 0xff, 0x1a]), b"ab00ff1a".to_vec());
    let h = pb::CryptoHash { bytes: vec![0xde, 0xad, 0xbe, 0xef] };
    assert_eq!(h.to_hex(), b"deadbeef".to_vec());
}
