//! The native backend: conversion between 8-bit code-page text and Unicode
//! strings through a UTF-16 intermediate, in the shape of the platform's
//! two multibyte conversion calls.
//!
//! Decoding validates strictly: a byte sequence with no meaning in the
//! selected code page is rejected. Encoding substitutes a default character
//! for unrepresentable characters and reports that it did so when asked;
//! the string-level entry point turns a reported substitution into an
//! invalid-input error when the caller supplied no default character.

use vstd::prelude::*;
use vstd::utf8::valid_utf8;
use vstd::utf8::decode_utf8;
use vstd::utf8::encode_utf8;
use crate::ConversionError;
use crate::Encoder;
use crate::str_result_view;
use crate::bytes_result_view;
use crate::tables::SbPage;
use crate::tables::sb_scalar;
use crate::tables::sb_byte;
use crate::tables::lookup_scalar;
use crate::tables::lookup_byte;
use crate::tables::lemma_sb_scalar_bmp;
use crate::utf8::decode_bytes;
use crate::utf8::encode_chars;
use crate::utf8::string_from_chars;
use crate::utf8::char_from_scalar;
use crate::wide::wide_valid;
use crate::wide::wide_decode;
use crate::wide::wide_encode;
use crate::wide::decode_wide;
use crate::wide::encode_wide;
use crate::wide::wide_encode_char;
use crate::wide::lemma_wide_round_trip;

verus! {

/// Pseudo identifier for the platform's default "ANSI" code page.
pub const CP_ACP: u32 = 0;

/// Pseudo identifier for the platform's "OEM" console code page.
pub const CP_OEMCP: u32 = 1;

/// Identifier for the UTF-8 code page.
pub const CP_UTF8: u32 = 65001;

/// Always use precomposed characters, that is, characters having a single
/// character value for a base or nonspacing character combination.
pub const MB_PRECOMPOSED: u32 = 0x00000001;

/// Always use decomposed characters, that is, characters in which a base
/// character and one or more nonspacing characters each have distinct code
/// point values.
pub const MB_COMPOSITE: u32 = 0x00000002;

/// Use glyph characters instead of control characters.
pub const MB_USEGLYPHCHARS: u32 = 0x00000004;

/// Fail if an invalid input character is encountered.
pub const MB_ERR_INVALID_CHARS: u32 = 0x00000008;

/// Convert composite characters, consisting of a base character and a
/// nonspacing character, each with different character values.
pub const WC_COMPOSITECHECK: u32 = 0x00000200;

/// Discard nonspacing characters during conversion.
pub const WC_DISCARDNS: u32 = 0x00000010;

/// Default. Generate separate characters during conversion.
pub const WC_SEPCHARS: u32 = 0x00000020;

/// Replace exceptions with the default character during conversion.
pub const WC_DEFAULTCHAR: u32 = 0x00000040;

/// Fail if an invalid input character is encountered.
pub const WC_ERR_INVALID_CHARS: u32 = 0x00000080;

/// Translate any Unicode characters that do not translate directly to
/// multibyte equivalents to the default character.
pub const WC_NO_BEST_FIT_CHARS: u32 = 0x00000400;

/// A code page identifier resolved to the table or scheme that serves it.
#[derive(Clone, Copy, Debug)]
pub enum PageKind {
    /// A single-byte table.
    Single(SbPage),
    /// The UTF-8 scheme.
    Utf8,
}

/// The page a numeric code page identifier selects, `None` when the
/// identifier names no page known here.
pub open spec fn page_of(codepage: u32) -> Option<PageKind> {
    if codepage == CP_ACP || codepage == 1251 {
        Some(PageKind::Single(SbPage::Win1251))
    } else if codepage == CP_OEMCP || codepage == 866 {
        Some(PageKind::Single(SbPage::Dos866))
    } else if codepage == CP_UTF8 {
        Some(PageKind::Utf8)
    } else {
        None
    }
}

fn resolve_page(codepage: u32) -> (r: Option<PageKind>)
    ensures
        r == page_of(codepage),
{
    if codepage == CP_ACP || codepage == 1251 {
        Some(PageKind::Single(SbPage::Win1251))
    } else if codepage == CP_OEMCP || codepage == 866 {
        Some(PageKind::Single(SbPage::Dos866))
    } else if codepage == CP_UTF8 {
        Some(PageKind::Utf8)
    } else {
        None
    }
}

/// True when every byte of the sequence is defined in the page.
pub open spec fn sb_decode_ok(p: SbPage, bytes: Seq<u8>) -> bool {
    forall|j: int| 0 <= j < bytes.len() ==> sb_scalar(p, bytes[j]) is Some
}

/// The characters a fully defined byte sequence decodes to, one per byte.
pub open spec fn sb_decode(p: SbPage, bytes: Seq<u8>) -> Seq<char> {
    Seq::new(bytes.len(), |j: int| sb_scalar(p, bytes[j]).unwrap() as char)
}

/// The bytes a character sequence encodes to under the page, with `d`
/// substituted for each character the page cannot represent.
pub open spec fn sb_encode_bytes(p: SbPage, chars: Seq<char>, d: u8) -> Seq<u8> {
    Seq::new(
        chars.len(),
        |j: int|
            match sb_byte(p, chars[j] as u32) {
                Some(b) => b,
                None => d,
            },
    )
}

/// True when some character of the sequence has no representation in the
/// page, so that encoding it substitutes the default character.
pub open spec fn sb_encode_subst(p: SbPage, chars: Seq<char>) -> bool {
    exists|j: int| 0 <= j < chars.len() && sb_byte(p, chars[j] as u32) is None
}

/// The substitution byte used for unrepresentable characters: the caller's
/// default character, or `?`, the platform's usual default.
pub open spec fn default_byte(d: Option<u8>) -> u8 {
    match d {
        Some(b) => b,
        None => 0x3F,
    }
}

/// What decoding `bytes` under the code page `codepage` returns.
/// Empty input always yields the empty string; otherwise an unknown code
/// page is reported as such, and a byte sequence without meaning in the
/// page is invalid input.
pub open spec fn spec_decode(codepage: u32, bytes: Seq<u8>) -> Result<Seq<char>, ConversionError> {
    if bytes.len() == 0 {
        Ok(Seq::empty())
    } else {
        match page_of(codepage) {
            None => Err(ConversionError::UnsupportedCodePage),
            Some(PageKind::Utf8) => if valid_utf8(bytes) {
                Ok(decode_utf8(bytes))
            } else {
                Err(ConversionError::InvalidInput)
            },
            Some(PageKind::Single(p)) => if sb_decode_ok(p, bytes) {
                Ok(sb_decode(p, bytes))
            } else {
                Err(ConversionError::InvalidInput)
            },
        }
    }
}

/// What converting the UTF-16 units `wide` to bytes of `codepage` returns:
/// the bytes, and whether a default-character substitution was reported.
/// Empty input always yields empty output; ill-formed UTF-16 is invalid
/// input; substitution is reported only when `report` asks for it (and
/// never for the UTF-8 page, which represents every character).
pub open spec fn spec_encode_wide(
    codepage: u32,
    wide: Seq<u16>,
    d: Option<u8>,
    report: bool,
) -> Result<(Seq<u8>, bool), ConversionError> {
    if wide.len() == 0 {
        Ok((Seq::empty(), false))
    } else {
        match page_of(codepage) {
            None => Err(ConversionError::UnsupportedCodePage),
            Some(k) => {
                if !wide_valid(wide) {
                    Err(ConversionError::InvalidInput)
                } else {
                    let chars = wide_decode(wide);
                    match k {
                        PageKind::Utf8 => Ok((encode_utf8(chars), false)),
                        PageKind::Single(p) => Ok(
                            (
                                sb_encode_bytes(p, chars, default_byte(d)),
                                report && sb_encode_subst(p, chars),
                            ),
                        ),
                    }
                }
            },
        }
    }
}

/// What encoding the text under `codepage` returns. Empty input always
/// yields empty output; with no default character, a text holding any
/// unrepresentable character is invalid input, and otherwise every such
/// character becomes the default character.
pub open spec fn spec_encode(codepage: u32, text: Seq<char>, d: Option<u8>) -> Result<
    Seq<u8>,
    ConversionError,
> {
    if text.len() == 0 {
        Ok(Seq::empty())
    } else {
        match page_of(codepage) {
            None => Err(ConversionError::UnsupportedCodePage),
            Some(PageKind::Utf8) => Ok(encode_utf8(text)),
            Some(PageKind::Single(p)) => if d is None && sb_encode_subst(p, text) {
                Err(ConversionError::InvalidInput)
            } else {
                Ok(sb_encode_bytes(p, text, default_byte(d)))
            },
        }
    }
}

/// Decodes each byte through the page table; `None` exactly when some byte
/// is undefined in the page.
fn sb_decode_exec(p: SbPage, bytes: &[u8]) -> (r: Option<Vec<char>>)
    ensures
        match r {
            Some(v) => sb_decode_ok(p, bytes@) && v@ == sb_decode(p, bytes@),
            None => !sb_decode_ok(p, bytes@),
        },
{
    let n = bytes.len();
    let mut out: Vec<char> = Vec::new();
    let mut i: usize = 0;
    while i < n
        invariant
            i <= n,
            n == bytes@.len(),
            out@.len() == i,
            forall|j: int| 0 <= j < i ==> sb_scalar(p, bytes@[j]) is Some,
            forall|j: int| 0 <= j < i ==> out@[j] == sb_scalar(p, bytes@[j]).unwrap() as char,
        decreases n - i,
    {
        match lookup_scalar(p, bytes[i]) {
            None => {
                proof {
                    assert(!sb_decode_ok(p, bytes@));
                }
                return None;
            },
            Some(u) => {
                proof {
                    lemma_sb_scalar_bmp(p, bytes@[i as int]);
                }
                let c = char_from_scalar(u);
                out.push(c);
            },
        }
        i += 1;
    }
    proof {
        assert(out@ =~= sb_decode(p, bytes@));
    }
    Some(out)
}

/// Encodes each character through the page table, substituting `d` for the
/// unrepresentable ones; also returns whether any substitution happened.
fn sb_encode_exec(p: SbPage, chars: &Vec<char>, d: u8) -> (r: (Vec<u8>, bool))
    ensures
        r.0@ == sb_encode_bytes(p, chars@, d),
        r.1 == sb_encode_subst(p, chars@),
{
    let n = chars.len();
    let mut out: Vec<u8> = Vec::new();
    let mut used = false;
    let mut i: usize = 0;
    while i < n
        invariant
            i <= n,
            n == chars@.len(),
            out@.len() == i,
            forall|j: int|
                0 <= j < i ==> out@[j] == match sb_byte(p, chars@[j] as u32) {
                    Some(b) => b,
                    None => d,
                },
            used == exists|j: int| 0 <= j < i && sb_byte(p, chars@[j] as u32) is None,
        decreases n - i,
    {
        match lookup_byte(p, chars[i] as u32) {
            Some(b) => {
                out.push(b);
            },
            None => {
                out.push(d);
                used = true;
            },
        }
        i += 1;
    }
    proof {
        assert(out@ =~= sb_encode_bytes(p, chars@, d));
    }
    (out, used)
}

/// Converts an 8-bit byte sequence in the given code page to a string.
///
/// The conversion always validates strictly, as the `MB_ERR_INVALID_CHARS`
/// flag asks: the `flags` argument is accepted for call-site compatibility
/// and does not change the result.
pub fn multi_byte_to_wide_char(codepage: u32, flags: u32, multi_byte_str: &[u8]) -> (r: Result<
    String,
    ConversionError,
>)
    ensures
        str_result_view(r) == spec_decode(codepage, multi_byte_str@),
{
    if multi_byte_str.is_empty() {
        return Ok(String::new());
    }
    match resolve_page(codepage) {
        None => Err(ConversionError::UnsupportedCodePage),
        Some(PageKind::Utf8) => match decode_bytes(multi_byte_str) {
            Some(v) => Ok(string_from_chars(&v)),
            None => Err(ConversionError::InvalidInput),
        },
        Some(PageKind::Single(p)) => match sb_decode_exec(p, multi_byte_str) {
            Some(v) => Ok(string_from_chars(&v)),
            None => Err(ConversionError::InvalidInput),
        },
    }
}

/// Converts a UTF-16 unit sequence to bytes of the given code page.
///
/// `default_char` replaces characters the page cannot represent (`?` when
/// `None`), and the returned flag reports whether that happened, provided
/// `use_default_char_flag` asks for the report. The `flags` argument is
/// accepted for call-site compatibility and does not change the result.
pub fn wide_char_to_multi_byte(
    codepage: u32,
    flags: u32,
    wide_char_str: &[u16],
    default_char: Option<u8>,
    use_default_char_flag: bool,
) -> (r: Result<(Vec<u8>, bool), ConversionError>)
    ensures
        match r {
            Ok(t) => spec_encode_wide(codepage, wide_char_str@, default_char, use_default_char_flag)
                == Ok::<(Seq<u8>, bool), ConversionError>((t.0@, t.1)),
            Err(e) => spec_encode_wide(
                codepage,
                wide_char_str@,
                default_char,
                use_default_char_flag,
            ) == Err::<(Seq<u8>, bool), ConversionError>(e),
        },
{
    if wide_char_str.is_empty() {
        return Ok((Vec::new(), false));
    }
    match resolve_page(codepage) {
        None => Err(ConversionError::UnsupportedCodePage),
        Some(k) => match decode_wide(wide_char_str) {
            None => Err(ConversionError::InvalidInput),
            Some(chars) => match k {
                PageKind::Utf8 => Ok((encode_chars(&chars), false)),
                PageKind::Single(p) => {
                    let d = match default_char {
                        Some(b) => b,
                        None => 0x3F,
                    };
                    let (bytes, used) = sb_encode_exec(p, &chars, d);
                    Ok((bytes, use_default_char_flag && used))
                },
            },
        },
    }
}

/// Converts a string to an 8-bit byte sequence of the given code page.
///
/// With no `default_char`, a text holding a character the page cannot
/// represent is rejected as invalid input; with one, every such character
/// becomes `default_char` and the conversion succeeds.
pub fn string_to_multibyte(codepage: u32, data: &str, default_char: Option<u8>) -> (r: Result<
    Vec<u8>,
    ConversionError,
>)
    ensures
        bytes_result_view(r) == spec_encode(codepage, data@, default_char),
{
    let chars = crate::utf8::chars_of_str(data);
    let wstr: Vec<u16> = encode_wide(&chars);
    proof {
        lemma_wide_round_trip(data@);
        if data@.len() > 0 {
            assert(wstr@ == wide_encode_char(data@[0]) + wide_encode(data@.drop_first()));
            assert(wstr@.len() > 0);
        }
    }
    match wide_char_to_multi_byte(
        codepage,
        WC_COMPOSITECHECK,
        wstr.as_slice(),
        default_char,
        default_char.is_none(),
    ) {
        Ok(t) => {
            if t.1 {
                Err(ConversionError::InvalidInput)
            } else {
                Ok(t.0)
            }
        },
        Err(e) => Err(e),
    }
}

/// Encoder through the native code-page backend; the field is the numeric
/// code page identifier used for both directions.
pub struct EncoderCodePage(pub u32);

impl Encoder for EncoderCodePage {
    open spec fn decode_spec(&self, data: Seq<u8>) -> Result<Seq<char>, ConversionError> {
        spec_decode(self.0, data)
    }

    open spec fn encode_spec(&self, data: Seq<char>) -> Result<Seq<u8>, ConversionError> {
        spec_encode(self.0, data, None)
    }

    /// Convert from bytes to string.
    fn to_string(&self, data: &[u8]) -> (r: Result<String, ConversionError>) {
        multi_byte_to_wide_char(self.0, MB_ERR_INVALID_CHARS, data)
    }

    /// Convert from string to bytes.
    fn to_bytes(&self, data: &str) -> (r: Result<Vec<u8>, ConversionError>) {
        string_to_multibyte(self.0, data, None)
    }
}

} // verus!
