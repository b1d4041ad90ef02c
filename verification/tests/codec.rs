use tick_codec::codec::{ByteConvertible, CodecError, FixedBytes, TickEncoded};

#[test]
fn round_trip_example() {
    let source: Vec<u8> = vec![0x00, 0x01, 0xFF];
    let text = TickEncoded::encode(&source);
    assert_eq!(text, "`00`01`FF");
    let decoded = TickEncoded::decode(&text).unwrap();
    assert_eq!(decoded, source);
}

#[test]
fn round_trip_empty() {
    let text = TickEncoded::encode(&[]);
    assert_eq!(text, "");
    let decoded = TickEncoded::decode("").unwrap();
    assert_eq!(decoded, Vec::<u8>::new());
}

#[test]
fn round_trip_all_byte_values() {
    let source: Vec<u8> = (0u8..=255).collect();
    let text = TickEncoded::encode(&source);
    let decoded = TickEncoded::decode(&text).unwrap();
    assert_eq!(decoded, source);
}

#[test]
fn encode_matches_primitive() {
    // The adapter's text must be the primitive's own encoding, not the input
    // handed back unchanged.
    let source: Vec<u8> = vec![b'`', 0x00, b'a', 0x7F];
    let text = TickEncoded::encode(&source);
    assert_eq!(text, tick_encoding::encode(&source));
    assert_eq!(text, "```00a`7F");
    let decoded = TickEncoded::decode(&text).unwrap();
    assert_eq!(decoded, tick_encoding::decode(text.as_bytes()).unwrap().into_owned());
    assert_eq!(decoded, source);
}

#[test]
fn plain_text_stays_plain() {
    let source: Vec<u8> = b"hello world!".to_vec();
    let text = TickEncoded::encode(&source);
    assert_eq!(text, "hello world!");
    assert_eq!(TickEncoded::decode("hello world!").unwrap(), source);
}

#[test]
fn encoding_is_deterministic() {
    let source: Vec<u8> = vec![1, 2, 3, b'`', 200];
    assert_eq!(TickEncoded::encode(&source), TickEncoded::encode(&source));
}

#[test]
fn decoding_is_deterministic() {
    let text = "x: `00`FF";
    assert_eq!(
        TickEncoded::decode(text).unwrap(),
        TickEncoded::decode(text).unwrap()
    );
}

#[test]
fn malformed_invalid_escape_rejected() {
    let err = TickEncoded::decode("`!not-valid!").unwrap_err();
    assert!(matches!(err, CodecError::EncodingMalformed { .. }));
    assert!(!err.message().is_empty());
}

#[test]
fn malformed_lowercase_hex_rejected() {
    let err = TickEncoded::decode("`ff").unwrap_err();
    assert!(matches!(err, CodecError::EncodingMalformed { .. }));
}

#[test]
fn malformed_error_forwards_primitive_message() {
    let err = TickEncoded::decode("`ff").unwrap_err();
    let primitive_err = tick_encoding::decode("`ff".as_bytes()).unwrap_err();
    assert_eq!(err.message(), format!("{primitive_err}"));
}

#[test]
fn malformed_trailing_tick_rejected() {
    let err = TickEncoded::decode("abc`").unwrap_err();
    assert!(matches!(err, CodecError::EncodingMalformed { .. }));
}

#[test]
fn malformed_non_canonical_escape_rejected() {
    // 0x41 is 'A', which never needs escaping, so "`41" is not canonical.
    let err = TickEncoded::decode("`41").unwrap_err();
    assert!(matches!(err, CodecError::EncodingMalformed { .. }));
}

#[test]
fn malformed_control_byte_rejected() {
    let err = TickEncoded::decode("\u{0001}").unwrap_err();
    assert!(matches!(err, CodecError::EncodingMalformed { .. }));
}

#[test]
fn malformed_non_ascii_rejected() {
    let err = TickEncoded::decode("café").unwrap_err();
    assert!(matches!(err, CodecError::EncodingMalformed { .. }));
}

#[test]
fn serialize_as_uses_byte_view() {
    let source: Vec<u8> = vec![0x00, b'z'];
    assert_eq!(TickEncoded::serialize_as(&source), "`00z");
    assert_eq!(TickEncoded::serialize_as(&source), TickEncoded::encode(&source));
}

#[test]
fn deserialize_as_vec_round_trips() {
    let source: Vec<u8> = vec![9, 10, 13, 96, 127];
    let text = TickEncoded::serialize_as(&source);
    let back: Vec<u8> = TickEncoded::deserialize_as(&text).unwrap();
    assert_eq!(back, source);
}

#[test]
fn deserialize_as_vec_rejects_malformed() {
    let err = TickEncoded::deserialize_as::<Vec<u8>>("`g0").unwrap_err();
    assert!(matches!(err, CodecError::EncodingMalformed { .. }));
}

#[test]
fn deserialize_as_fixed_length_accepts_exact() {
    let text = TickEncoded::encode(&[0xAB, 0xCD, 0xEF]);
    let value: FixedBytes<3> = TickEncoded::deserialize_as(&text).unwrap();
    assert_eq!(value.to_bytes(), vec![0xAB, 0xCD, 0xEF]);
}

#[test]
fn deserialize_as_fixed_length_rejects_other_lengths() {
    let text = TickEncoded::encode(&[0xAB, 0xCD, 0xEF]);
    let err = TickEncoded::deserialize_as::<FixedBytes<4>>(&text).unwrap_err();
    assert!(matches!(err, CodecError::TargetConversionFailed { .. }));
    assert_eq!(
        err.message(),
        "decoded byte sequence does not have the expected fixed length"
    );
}

#[test]
fn fixed_length_round_trips_through_text() {
    let value: FixedBytes<2> = FixedBytes::try_from_bytes(vec![0x00, 0x61]).unwrap();
    let text = TickEncoded::serialize_as(&value);
    assert_eq!(text, "`00a");
    let back: FixedBytes<2> = TickEncoded::deserialize_as(&text).unwrap();
    assert_eq!(back.to_bytes(), vec![0x00, 0x61]);
}

#[test]
fn fixed_length_constructor_rejects_wrong_length() {
    assert!(FixedBytes::<2>::try_from_bytes(vec![1, 2, 3]).is_err());
    assert!(FixedBytes::<2>::try_from_bytes(vec![]).is_err());
}
