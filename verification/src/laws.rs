//! Laws of the conversion pair, stated over the same specification
//! functions the executable contracts use: round trips, empty-input
//! identity, stability of ASCII text, passthrough exactness, and the
//! handling of unrepresentable characters.

use vstd::prelude::*;
use vstd::utf8::valid_utf8;
use vstd::utf8::decode_utf8;
use vstd::utf8::encode_utf8;
use vstd::utf8::encode_scalar;
use vstd::utf8::encode_utf8_valid_utf8;
use vstd::utf8::encode_utf8_decode_utf8;
use vstd::utf8::is_ascii_chars;
use vstd::utf8::is_ascii_chars_encode_utf8;
use vstd::utf8::is_ascii_chars_nat_bound;
use vstd::utf8::char_u32_cast;
use crate::ConversionError;
use crate::Encoder;
use crate::Encoding;
use crate::passthrough::EncoderUtf8;
use crate::tables::SbPage;
use crate::tables::sb_scalar;
use crate::tables::sb_byte;
use crate::tables::lemma_sb_byte_scalar;
use crate::tables::lemma_sb_scalar_byte;
use crate::tables::lemma_sb_scalar_bmp;
use crate::codepage::PageKind;
use crate::codepage::page_of;
use crate::codepage::spec_decode;
use crate::codepage::spec_encode;
use crate::codepage::sb_decode;
use crate::codepage::sb_decode_ok;
use crate::codepage::sb_encode_bytes;
use crate::codepage::sb_encode_subst;

verus! {

/// Round trip through the native backend: when encoding with no default
/// character succeeds (so no substitution took place), decoding the
/// resulting bytes under the same code page yields the original text.
pub proof fn lemma_round_trip_codepage(cp: u32, text: Seq<char>, bytes: Seq<u8>)
    requires
        spec_encode(cp, text, None) == Ok::<Seq<u8>, ConversionError>(bytes),
    ensures
        spec_decode(cp, bytes) == Ok::<Seq<char>, ConversionError>(text),
{
    if text.len() == 0 {
        assert(bytes =~= Seq::<u8>::empty());
        assert(text =~= Seq::<char>::empty());
    } else {
        match page_of(cp) {
            None => {
                assert(false);
            },
            Some(PageKind::Utf8) => {
                assert(bytes == encode_utf8(text));
                encode_utf8_valid_utf8(text);
                encode_utf8_decode_utf8(text);
                assert(encode_utf8(text) == encode_scalar(text[0] as u32) + encode_utf8(
                    text.drop_first(),
                ));
                assert(bytes.len() > 0);
            },
            Some(PageKind::Single(p)) => {
                assert(!sb_encode_subst(p, text));
                assert(bytes == sb_encode_bytes(p, text, 0x3F));
                assert forall|j: int| 0 <= j < bytes.len() implies sb_scalar(p, bytes[j]) == Some(
                    text[j] as u32,
                ) by {
                    assert(sb_byte(p, text[j] as u32) is Some);
                    lemma_sb_byte_scalar(p, text[j] as u32);
                }
                assert(sb_decode_ok(p, bytes));
                assert forall|j: int| 0 <= j < bytes.len() implies sb_decode(p, bytes)[j]
                    == text[j] by {
                    char_u32_cast(text[j], text[j] as u32);
                }
                assert(sb_decode(p, bytes) =~= text);
            },
        }
    }
}

/// Round trip in the other direction: bytes that decode successfully under
/// a code page are recovered exactly by strictly encoding the decoded text.
pub proof fn lemma_decode_encode_codepage(cp: u32, bytes: Seq<u8>, text: Seq<char>)
    requires
        spec_decode(cp, bytes) == Ok::<Seq<char>, ConversionError>(text),
    ensures
        spec_encode(cp, text, None) == Ok::<Seq<u8>, ConversionError>(bytes),
{
    if bytes.len() == 0 {
        assert(text =~= Seq::<char>::empty());
        assert(bytes =~= Seq::<u8>::empty());
    } else {
        match page_of(cp) {
            None => {
                assert(false);
            },
            Some(PageKind::Utf8) => {
                assert(valid_utf8(bytes) && text == decode_utf8(bytes));
                vstd::utf8::decode_utf8_encode_utf8(bytes);
                assert(text.len() > 0);
            },
            Some(PageKind::Single(p)) => {
                assert(sb_decode_ok(p, bytes) && text == sb_decode(p, bytes));
                assert(text.len() == bytes.len());
                assert forall|j: int| 0 <= j < text.len() implies sb_byte(p, text[j] as u32)
                    == Some(bytes[j]) by {
                    assert(sb_scalar(p, bytes[j]) is Some);
                    let u = sb_scalar(p, bytes[j]).unwrap();
                    lemma_sb_scalar_bmp(p, bytes[j]);
                    assert(text[j] == u as char);
                    assert(text[j] as u32 == u);
                    lemma_sb_scalar_byte(p, bytes[j]);
                }
                assert(!sb_encode_subst(p, text));
                assert(sb_encode_bytes(p, text, 0x3F) =~= bytes);
            },
        }
    }
}

/// Round trip through the facade: for either named encoding, a text whose
/// strict encoding succeeds is recovered exactly by decoding.
pub proof fn lemma_round_trip_encoding(e: Encoding, text: Seq<char>, bytes: Seq<u8>)
    requires
        e.encode_spec(text) == Ok::<Seq<u8>, ConversionError>(bytes),
    ensures
        e.decode_spec(bytes) == Ok::<Seq<char>, ConversionError>(text),
{
    lemma_round_trip_codepage(e.spec_codepage(), text, bytes);
}

/// Round trip through the passthrough backend: encoding always succeeds,
/// and decoding the encoded bytes yields the original text.
pub proof fn lemma_round_trip_passthrough(text: Seq<char>)
    ensures
        (EncoderUtf8).encode_spec(text) == Ok::<Seq<u8>, ConversionError>(encode_utf8(text)),
        (EncoderUtf8).decode_spec(encode_utf8(text)) == Ok::<Seq<char>, ConversionError>(text),
{
    encode_utf8_valid_utf8(text);
    encode_utf8_decode_utf8(text);
}

/// Empty-input identity for the native backend: decoding and encoding the
/// empty input succeed with empty output, whatever the code page and
/// default character.
pub proof fn lemma_empty_identity_codepage(cp: u32, d: Option<u8>)
    ensures
        spec_decode(cp, Seq::empty()) == Ok::<Seq<char>, ConversionError>(Seq::empty()),
        spec_encode(cp, Seq::empty(), d) == Ok::<Seq<u8>, ConversionError>(Seq::empty()),
{
}

/// Empty-input identity for the passthrough backend.
pub proof fn lemma_empty_identity_passthrough()
    ensures
        (EncoderUtf8).decode_spec(Seq::empty()) == Ok::<Seq<char>, ConversionError>(Seq::empty()),
        (EncoderUtf8).encode_spec(Seq::empty()) == Ok::<Seq<u8>, ConversionError>(Seq::empty()),
{
    assert(valid_utf8(Seq::<u8>::empty()));
    assert(decode_utf8(Seq::<u8>::empty()) =~= Seq::<char>::empty());
    assert(encode_utf8(Seq::<char>::empty()) =~= Seq::<u8>::empty());
}

/// ASCII stability of the native backend: under every supported code page,
/// decoding ASCII bytes and strictly encoding ASCII text both succeed and
/// are the identity on character values.
pub proof fn lemma_ascii_stability(cp: u32, bytes: Seq<u8>, text: Seq<char>)
    requires
        page_of(cp) is Some,
        forall|j: int| 0 <= j < bytes.len() ==> bytes[j] < 0x80,
        is_ascii_chars(text),
    ensures
        spec_decode(cp, bytes) matches Ok(cs) && cs.len() == bytes.len() && (forall|j: int|
            0 <= j < bytes.len() ==> cs[j] as u32 == bytes[j]),
        spec_encode(cp, text, None) matches Ok(bs) && bs.len() == text.len() && (forall|j: int|
            0 <= j < text.len() ==> bs[j] == text[j] as u8),
{
    is_ascii_chars_nat_bound(text);
    let cs0 = Seq::new(bytes.len(), |j: int| bytes[j] as char);
    assert(is_ascii_chars(cs0));
    is_ascii_chars_encode_utf8(cs0);
    assert(encode_utf8(cs0) =~= bytes);
    encode_utf8_valid_utf8(cs0);
    encode_utf8_decode_utf8(cs0);
    is_ascii_chars_encode_utf8(text);
    if bytes.len() > 0 {
        match page_of(cp) {
            None => {
                assert(false);
            },
            Some(PageKind::Utf8) => {
                assert(spec_decode(cp, bytes) == Ok::<Seq<char>, ConversionError>(cs0));
            },
            Some(PageKind::Single(p)) => {
                assert(sb_decode_ok(p, bytes));
                assert(spec_decode(cp, bytes) matches Ok(cs) && cs == sb_decode(p, bytes));
            },
        }
    }
    if text.len() > 0 {
        match page_of(cp) {
            None => {
                assert(false);
            },
            Some(PageKind::Utf8) => {
            },
            Some(PageKind::Single(p)) => {
                assert forall|j: int| 0 <= j < text.len() implies sb_byte(p, text[j] as u32)
                    == Some(text[j] as u8) by {
                    assert((text[j] as nat) < 128);
                }
                assert(!sb_encode_subst(p, text));
            },
        }
    }
}

/// ASCII stability of the passthrough backend: decoding ASCII bytes and
/// encoding ASCII text both succeed and are the identity on character
/// values.
pub proof fn lemma_ascii_stability_passthrough(bytes: Seq<u8>, text: Seq<char>)
    requires
        forall|j: int| 0 <= j < bytes.len() ==> bytes[j] < 0x80,
        is_ascii_chars(text),
    ensures
        (EncoderUtf8).decode_spec(bytes) matches Ok(cs) && cs.len() == bytes.len() && (forall|
            j: int,
        |
            0 <= j < bytes.len() ==> cs[j] as u32 == bytes[j]),
        (EncoderUtf8).encode_spec(text) matches Ok(bs) && bs.len() == text.len() && (forall|j: int|
            0 <= j < text.len() ==> bs[j] == text[j] as u8),
{
    is_ascii_chars_nat_bound(text);
    let cs0 = Seq::new(bytes.len(), |j: int| bytes[j] as char);
    assert(is_ascii_chars(cs0));
    is_ascii_chars_encode_utf8(cs0);
    assert(encode_utf8(cs0) =~= bytes);
    encode_utf8_valid_utf8(cs0);
    encode_utf8_decode_utf8(cs0);
    is_ascii_chars_encode_utf8(text);
}

/// Passthrough exactness: the passthrough backend's conversions are
/// exactly strict UTF-8 decoding and UTF-8 encoding.
pub proof fn lemma_passthrough_exact(bytes: Seq<u8>, text: Seq<char>)
    ensures
        valid_utf8(bytes) ==> (EncoderUtf8).decode_spec(bytes) == Ok::<
            Seq<char>,
            ConversionError,
        >(decode_utf8(bytes)),
        !valid_utf8(bytes) ==> (EncoderUtf8).decode_spec(bytes) == Err::<
            Seq<char>,
            ConversionError,
        >(ConversionError::InvalidInput),
        (EncoderUtf8).encode_spec(text) == Ok::<Seq<u8>, ConversionError>(encode_utf8(text)),
{
}

/// Encoding with a default character never reports invalid input: every
/// unrepresentable character becomes the default character instead.
pub proof fn lemma_encode_substitution(p: SbPage, cp: u32, text: Seq<char>, d: u8)
    requires
        page_of(cp) == Some(PageKind::Single(p)),
    ensures
        spec_encode(cp, text, Some(d)) matches Ok(bs) && bs.len() == text.len() && (forall|j: int|
            0 <= j < text.len() ==> bs[j] == (match sb_byte(p, text[j] as u32) {
                Some(b) => b,
                None => d,
            })),
{
}

/// Encoding without a default character fails exactly when some character
/// of the text has no representation in the page, and the failure is the
/// invalid-input error.
pub proof fn lemma_encode_no_default_rejects(p: SbPage, cp: u32, text: Seq<char>)
    requires
        page_of(cp) == Some(PageKind::Single(p)),
        text.len() > 0,
    ensures
        spec_encode(cp, text, None) is Err <==> sb_encode_subst(p, text),
        sb_encode_subst(p, text) ==> spec_encode(cp, text, None) == Err::<
            Seq<u8>,
            ConversionError,
        >(ConversionError::InvalidInput),
{
}

} // verus!
