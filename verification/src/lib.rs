//! Conversion between legacy 8-bit text encodings and Unicode strings.
//!
//! Two named encodings, [`Encoding::ANSI`] and [`Encoding::OEM`], select a
//! numeric code page; the native backend ([`codepage::EncoderCodePage`])
//! converts through a UTF-16 intermediate exactly as the platform multibyte
//! conversion calls do, while the passthrough backend
//! ([`passthrough::EncoderUtf8`]) treats the 8-bit form as UTF-8.
//! Every conversion either fully succeeds or reports a typed error; nothing
//! panics and no partial output is returned.

use vstd::prelude::*;

pub mod codepage;
pub mod laws;
pub mod passthrough;
pub mod tables;
pub mod utf8;
pub mod wide;

pub use codepage::EncoderCodePage;
pub use codepage::multi_byte_to_wide_char;
pub use codepage::string_to_multibyte;
pub use codepage::wide_char_to_multi_byte;
pub use passthrough::EncoderUtf8;

verus! {

/// Why a conversion failed.
#[derive(Clone, Copy, Debug, PartialEq, Eq, Structural)]
pub enum ConversionError {
    /// The input holds a byte sequence that is not valid in the source
    /// encoding, or a character with no representation in the destination
    /// encoding (and no default replacement was supplied).
    InvalidInput,
    /// The numeric code page identifier names no code page known here.
    UnsupportedCodePage,
}

/// A string conversion result, seen at the specification level.
pub open spec fn str_result_view(r: Result<String, ConversionError>) -> Result<
    Seq<char>,
    ConversionError,
> {
    match r {
        Ok(s) => Ok(s@),
        Err(e) => Err(e),
    }
}

/// A byte conversion result, seen at the specification level.
pub open spec fn bytes_result_view(r: Result<Vec<u8>, ConversionError>) -> Result<
    Seq<u8>,
    ConversionError,
> {
    match r {
        Ok(v) => Ok(v@),
        Err(e) => Err(e),
    }
}

/// Converter between strings and a multibyte encoding.
///
/// Each implementation fixes, at the specification level, exactly what its
/// two conversions return for every input; the executable methods are bound
/// to those specifications.
pub trait Encoder {
    /// What `to_string` returns for the given bytes.
    spec fn decode_spec(&self, data: Seq<u8>) -> Result<Seq<char>, ConversionError>;

    /// What `to_bytes` returns for the given text.
    spec fn encode_spec(&self, data: Seq<char>) -> Result<Seq<u8>, ConversionError>;

    /// Convert from bytes to string.
    fn to_string(&self, data: &[u8]) -> (r: Result<String, ConversionError>)
        ensures
            str_result_view(r) == self.decode_spec(data@),
    ;

    /// Convert from string to bytes.
    fn to_bytes(&self, data: &str) -> (r: Result<Vec<u8>, ConversionError>)
        ensures
            bytes_result_view(r) == self.encode_spec(data@),
    ;
}

/// Text conversion encoding.
#[derive(Clone, Copy, Debug, PartialEq, Eq, Structural)]
pub enum Encoding {
    /// The platform's default "ANSI" code page, used historically for file
    /// content.
    ANSI,
    /// The platform's "OEM" console code page, used historically for
    /// terminal output.
    OEM,
}

impl Encoding {
    /// The numeric code page identifier the selector names.
    pub open spec fn spec_codepage(&self) -> u32 {
        match self {
            Encoding::ANSI => codepage::CP_ACP,
            Encoding::OEM => codepage::CP_OEMCP,
        }
    }

    /// Resolves the selector to its code page identifier.
    pub fn codepage(&self) -> (r: u32)
        ensures
            r == self.spec_codepage(),
    {
        match self {
            Encoding::ANSI => codepage::CP_ACP,
            Encoding::OEM => codepage::CP_OEMCP,
        }
    }
}

impl Encoder for Encoding {
    open spec fn decode_spec(&self, data: Seq<u8>) -> Result<Seq<char>, ConversionError> {
        codepage::spec_decode(self.spec_codepage(), data)
    }

    open spec fn encode_spec(&self, data: Seq<char>) -> Result<Seq<u8>, ConversionError> {
        codepage::spec_encode(self.spec_codepage(), data, None)
    }

    /// Convert from bytes to string.
    fn to_string(&self, data: &[u8]) -> (r: Result<String, ConversionError>) {
        codepage::EncoderCodePage(self.codepage()).to_string(data)
    }

    /// Convert from string to bytes.
    fn to_bytes(&self, data: &str) -> (r: Result<Vec<u8>, ConversionError>) {
        codepage::EncoderCodePage(self.codepage()).to_bytes(data)
    }
}

} // verus!
