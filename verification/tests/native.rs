use local_encoding::ConversionError;
use local_encoding::Encoder;
use local_encoding::EncoderCodePage;
use local_encoding::codepage::CP_ACP;
use local_encoding::codepage::CP_UTF8;
use local_encoding::codepage::MB_ERR_INVALID_CHARS;
use local_encoding::codepage::WC_COMPOSITECHECK;
use local_encoding::codepage::WC_DEFAULTCHAR;
use local_encoding::codepage::WC_ERR_INVALID_CHARS;
use local_encoding::multi_byte_to_wide_char;
use local_encoding::string_to_multibyte;
use local_encoding::wide_char_to_multi_byte;

#[test]
fn multi_byte_to_wide_char_empty() {
    assert_eq!(
        multi_byte_to_wide_char(CP_ACP, MB_ERR_INVALID_CHARS, b"").unwrap(),
        ""
    );
}

#[test]
fn multi_byte_to_wide_char_ascii() {
    assert_eq!(
        multi_byte_to_wide_char(CP_ACP, MB_ERR_INVALID_CHARS, b"Test").unwrap(),
        "Test"
    );
}

#[test]
fn multi_byte_to_wide_char_utf8() {
    assert_eq!(
        multi_byte_to_wide_char(
            CP_UTF8,
            MB_ERR_INVALID_CHARS,
            b"\xD0\xA2\xD0\xB5\xD1\x81\xD1\x82"
        )
        .unwrap(),
        "Тест"
    );
}

#[test]
fn multi_byte_to_wide_char_invalid() {
    assert!(multi_byte_to_wide_char(CP_UTF8, MB_ERR_INVALID_CHARS, b"Test\xC0").is_err());
}

#[test]
fn wide_char_to_multi_byte_empty() {
    assert_eq!(
        wide_char_to_multi_byte(CP_UTF8, WC_ERR_INVALID_CHARS, &[], None, false).unwrap(),
        (b"".to_vec(), false)
    );
}

#[test]
fn wide_char_to_multi_byte_ascii() {
    assert_eq!(
        wide_char_to_multi_byte(
            CP_ACP,
            WC_COMPOSITECHECK,
            &[0x0054, 0x0065, 0x0073, 0x0074],
            None,
            true
        )
        .unwrap(),
        (b"Test".to_vec(), false)
    );
}

#[test]
fn wide_char_to_multi_byte_utf8() {
    assert_eq!(
        wide_char_to_multi_byte(CP_UTF8, WC_ERR_INVALID_CHARS, &[0x6F22], None, false).unwrap(),
        (b"\xE6\xBC\xA2".to_vec(), false)
    );
}

#[test]
fn wide_char_to_multi_byte_replace() {
    assert_eq!(
        wide_char_to_multi_byte(
            CP_ACP,
            WC_DEFAULTCHAR | WC_COMPOSITECHECK,
            &[0x0054, 0x0065, 0x0073, 0x0074, 0x6F22, 0x0029],
            Some(b':'),
            true
        )
        .unwrap(),
        (b"Test:)".to_vec(), true)
    );
}

#[test]
fn wide_char_to_multi_byte_invalid() {
    assert_eq!(
        wide_char_to_multi_byte(CP_ACP, WC_COMPOSITECHECK, &[0x6F22], Some(b':'), true).unwrap(),
        (b":".to_vec(), true)
    );
    assert_eq!(
        wide_char_to_multi_byte(CP_ACP, WC_COMPOSITECHECK, &[0x0020], Some(b':'), true).unwrap(),
        (b" ".to_vec(), false)
    );
}

#[test]
fn cp1251_to_string_test() {
    assert_eq!(
        EncoderCodePage(1251).to_string(b"\xD2\xE5\xF1\xF2").unwrap(),
        "Тест"
    );
}

#[test]
fn string_to_cp1251_test() {
    assert_eq!(
        EncoderCodePage(1251).to_bytes("Тест").unwrap(),
        b"\xD2\xE5\xF1\xF2"
    );
}

#[test]
fn cp866_to_string_test() {
    assert_eq!(
        EncoderCodePage(866).to_string(b"\x92\xA5\xE1\xE2").unwrap(),
        "Тест"
    );
}

#[test]
fn string_to_cp866_test() {
    assert_eq!(
        EncoderCodePage(866).to_bytes("Тест").unwrap(),
        b"\x92\xA5\xE1\xE2"
    );
}

#[test]
fn unknown_code_page_is_reported() {
    assert_eq!(
        EncoderCodePage(12345).to_string(b"x").unwrap_err(),
        ConversionError::UnsupportedCodePage
    );
    assert_eq!(
        EncoderCodePage(12345).to_bytes("x").unwrap_err(),
        ConversionError::UnsupportedCodePage
    );
}

#[test]
fn unknown_code_page_empty_input_still_succeeds() {
    assert_eq!(EncoderCodePage(12345).to_string(b"").unwrap(), "");
    assert_eq!(
        EncoderCodePage(12345).to_bytes("").unwrap(),
        Vec::<u8>::new()
    );
}

#[test]
fn undefined_byte_is_invalid_input() {
    assert_eq!(
        EncoderCodePage(1251).to_string(b"\x98").unwrap_err(),
        ConversionError::InvalidInput
    );
}

#[test]
fn string_to_multibyte_with_default_substitutes() {
    assert_eq!(
        string_to_multibyte(1251, "Т漢", Some(b':')).unwrap(),
        b"\xD2:"
    );
}

#[test]
fn string_to_multibyte_utf8_surrogate_pair() {
    assert_eq!(
        string_to_multibyte(CP_UTF8, "\u{1F600}", None).unwrap(),
        b"\xF0\x9F\x98\x80"
    );
}

#[test]
fn wide_char_surrogate_pair_utf8() {
    assert_eq!(
        wide_char_to_multi_byte(CP_UTF8, 0, &[0xD83D, 0xDE00], None, false).unwrap(),
        (b"\xF0\x9F\x98\x80".to_vec(), false)
    );
}

#[test]
fn wide_char_unpaired_surrogate_is_invalid() {
    assert_eq!(
        wide_char_to_multi_byte(CP_ACP, WC_COMPOSITECHECK, &[0xD800], None, true).unwrap_err(),
        ConversionError::InvalidInput
    );
}

#[test]
fn cp866_decodes_box_drawing() {
    assert_eq!(
        multi_byte_to_wide_char(866, MB_ERR_INVALID_CHARS, b"\xC9\xCD\xBB").unwrap(),
        "╔═╗"
    );
}

#[test]
fn round_trip_every_defined_cp1251_byte() {
    let bytes: Vec<u8> = (0u8..=255).filter(|b| *b != 0x98).collect();
    let text = EncoderCodePage(1251).to_string(&bytes).unwrap();
    assert_eq!(EncoderCodePage(1251).to_bytes(&text).unwrap(), bytes);
}

#[test]
fn round_trip_every_cp866_byte() {
    let bytes: Vec<u8> = (0u8..=255).collect();
    let text = EncoderCodePage(866).to_string(&bytes).unwrap();
    assert_eq!(EncoderCodePage(866).to_bytes(&text).unwrap(), bytes);
}
