use cloud::num::{parse_u64_decimal, u64_to_decimal, u64_to_le_bytes};
use cloud::request::{Identity, SignableRequest};

#[test]
fn le_bytes_of_small_value() {
    assert_eq!(u64_to_le_bytes(1), vec![1, 0, 0, 0, 0, 0, 0, 0]);
    assert_eq!(
        u64_to_le_bytes(0x0102030405060708),
        vec![8, 7, 6, 5, 4, 3, 2, 1]
    );
    assert_eq!(u64_to_le_bytes(u64::MAX), vec![0xff; 8]);
}

#[test]
fn parse_decimal_accepts_plain_digits() {
    assert_eq!(parse_u64_decimal(b"0"), Some(0));
    assert_eq!(parse_u64_decimal(b"12345"), Some(12345));
    assert_eq!(parse_u64_decimal(b"007"), Some(7));
    assert_eq!(parse_u64_decimal(b"18446744073709551615"), Some(u64::MAX));
}

#[test]
fn parse_decimal_rejects_bad_text() {
    assert_eq!(parse_u64_decimal(b""), None);
    assert_eq!(parse_u64_decimal(b"12a"), None);
    assert_eq!(parse_u64_decimal(b"-1"), None);
    assert_eq!(parse_u64_decimal(b" 1"), None);
    assert_eq!(parse_u64_decimal(b"18446744073709551616"), None);
}

#[test]
fn decimal_round_trip() {
    for value in [0u64, 1, 9, 10, 60, 1234567890, u64::MAX] {
        let text = u64_to_decimal(value);
        assert_eq!(parse_u64_decimal(&text), Some(value));
    }
    assert_eq!(u64_to_decimal(0), b"0".to_vec());
    assert_eq!(u64_to_decimal(1234567890), b"1234567890".to_vec());
}

#[test]
fn canonical_encoding_exact_bytes() {
    // 4-byte little-endian length prefix, name bytes, raw 32 key bytes,
    // 8-byte little-endian time: 45 bytes for a one-byte name.
    let identity = Identity::from_bytes(vec![7u8; 32]).unwrap();
    let request = SignableRequest::with_time(b"a".to_vec(), identity, 5);
    let mut expected = vec![1, 0, 0, 0];
    expected.push(b'a');
    expected.extend_from_slice(&[7u8; 32]);
    expected.extend_from_slice(&[5, 0, 0, 0, 0, 0, 0, 0]);
    assert_eq!(request.serialize(), expected);
    assert_eq!(expected.len(), 45);
}

#[test]
fn canonical_encoding_separates_distinct_fields() {
    let id_a = Identity::from_bytes(vec![7u8; 32]).unwrap();
    let id_b = Identity::from_bytes(vec![8u8; 32]).unwrap();
    let base = SignableRequest::with_time(b"a".to_vec(), id_a, 1).serialize();
    let other_name =
        SignableRequest::with_time(b"b".to_vec(), Identity::from_bytes(vec![7u8; 32]).unwrap(), 1)
            .serialize();
    let other_key = SignableRequest::with_time(b"a".to_vec(), id_b, 1).serialize();
    let other_time =
        SignableRequest::with_time(b"a".to_vec(), Identity::from_bytes(vec![7u8; 32]).unwrap(), 2)
            .serialize();
    assert_ne!(base, other_name);
    assert_ne!(base, other_key);
    assert_ne!(base, other_time);
}

#[test]
fn length_prefix_keeps_framing_unambiguous() {
    // Same concatenated text, split differently between the name and nothing:
    // the length prefix must keep the encodings apart.
    let id = || Identity::from_bytes(vec![9u8; 32]).unwrap();
    let one = SignableRequest::with_time(b"ab".to_vec(), id(), 0).serialize();
    let two = SignableRequest::with_time(b"a".to_vec(), id(), 0).serialize();
    assert_ne!(one, two);
}
