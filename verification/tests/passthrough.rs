use local_encoding::ConversionError;
use local_encoding::Encoder;
use local_encoding::EncoderUtf8;

#[test]
fn passthrough_decode_is_utf8_decode() {
    assert_eq!(
        EncoderUtf8
            .to_string(b"\xD0\xA2\xD0\xB5\xD1\x81\xD1\x82")
            .unwrap(),
        "Тест"
    );
}

#[test]
fn passthrough_encode_is_utf8_encode() {
    assert_eq!(
        EncoderUtf8.to_bytes("Тест").unwrap(),
        "Тест".as_bytes().to_vec()
    );
}

#[test]
fn passthrough_rejects_invalid_utf8() {
    assert_eq!(
        EncoderUtf8.to_string(b"Test\xC0").unwrap_err(),
        ConversionError::InvalidInput
    );
}

#[test]
fn passthrough_empty_identity() {
    assert_eq!(EncoderUtf8.to_string(b"").unwrap(), "");
    assert_eq!(EncoderUtf8.to_bytes("").unwrap(), Vec::<u8>::new());
}

#[test]
fn passthrough_ascii_stability() {
    assert_eq!(EncoderUtf8.to_string(b"Test").unwrap(), "Test");
    assert_eq!(EncoderUtf8.to_bytes("Test").unwrap(), b"Test");
}

#[test]
fn passthrough_round_trip() {
    let text = "Тест 漢 \u{1F600} done";
    let bytes = EncoderUtf8.to_bytes(text).unwrap();
    assert_eq!(EncoderUtf8.to_string(&bytes).unwrap(), text);
}

#[test]
fn passthrough_rejects_overlong_and_surrogate_encodings() {
    // overlong encoding of '/'
    assert!(EncoderUtf8.to_string(b"\xC0\xAF").is_err());
    // encoded surrogate U+D800
    assert!(EncoderUtf8.to_string(b"\xED\xA0\x80").is_err());
    // truncated sequence
    assert!(EncoderUtf8.to_string(b"\xD0").is_err());
}
