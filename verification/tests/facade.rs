use local_encoding::ConversionError;
use local_encoding::Encoder;
use local_encoding::Encoding;

fn to_string_test(encoding: Encoding) {
    assert_eq!(encoding.to_string(b"Test").unwrap(), "Test");
}

fn from_string_test(encoding: Encoding) {
    assert_eq!(encoding.to_bytes("Test").unwrap(), b"Test");
}

#[test]
fn oem_to_string_test() {
    to_string_test(Encoding::OEM);
}

#[test]
fn ansi_to_string_test() {
    to_string_test(Encoding::ANSI);
}

#[test]
fn string_to_oem_test() {
    from_string_test(Encoding::OEM);
}

#[test]
fn string_to_ansi_test() {
    from_string_test(Encoding::ANSI);
}

#[test]
fn ansi_decodes_cyrillic() {
    assert_eq!(
        Encoding::ANSI.to_string(b"\xD2\xE5\xF1\xF2").unwrap(),
        "Тест"
    );
}

#[test]
fn oem_decodes_cyrillic() {
    assert_eq!(
        Encoding::OEM.to_string(b"\x92\xA5\xE1\xE2").unwrap(),
        "Тест"
    );
}

#[test]
fn ansi_encodes_cyrillic() {
    assert_eq!(
        Encoding::ANSI.to_bytes("Тест").unwrap(),
        b"\xD2\xE5\xF1\xF2"
    );
}

#[test]
fn oem_encodes_cyrillic() {
    assert_eq!(Encoding::OEM.to_bytes("Тест").unwrap(), b"\x92\xA5\xE1\xE2");
}

#[test]
fn empty_identity_both_encodings() {
    assert_eq!(Encoding::ANSI.to_string(b"").unwrap(), "");
    assert_eq!(Encoding::OEM.to_string(b"").unwrap(), "");
    assert_eq!(Encoding::ANSI.to_bytes("").unwrap(), Vec::<u8>::new());
    assert_eq!(Encoding::OEM.to_bytes("").unwrap(), Vec::<u8>::new());
}

#[test]
fn round_trip_both_encodings() {
    for encoding in [Encoding::ANSI, Encoding::OEM] {
        let bytes = encoding.to_bytes("Тест 123").unwrap();
        assert_eq!(encoding.to_string(&bytes).unwrap(), "Тест 123");
    }
}

#[test]
fn unrepresentable_without_default_is_rejected() {
    assert_eq!(
        Encoding::ANSI.to_bytes("漢").unwrap_err(),
        ConversionError::InvalidInput
    );
    assert_eq!(
        Encoding::OEM.to_bytes("漢").unwrap_err(),
        ConversionError::InvalidInput
    );
}
