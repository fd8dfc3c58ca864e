//! The passthrough backend: the 8-bit representation is UTF-8 itself, so
//! decoding is exactly a strict UTF-8 decode and encoding is exactly a
//! UTF-8 encode, which cannot fail.

use vstd::prelude::*;
use vstd::utf8::valid_utf8;
use vstd::utf8::decode_utf8;
use vstd::utf8::encode_utf8;
use crate::ConversionError;
use crate::Encoder;
use crate::utf8::decode_bytes;
use crate::utf8::encode_chars;
use crate::utf8::chars_of_str;
use crate::utf8::string_from_chars;

verus! {

/// Encoder treating the 8-bit form as UTF-8.
pub struct EncoderUtf8;

impl Encoder for EncoderUtf8 {
    open spec fn decode_spec(&self, data: Seq<u8>) -> Result<Seq<char>, ConversionError> {
        if valid_utf8(data) {
            Ok(decode_utf8(data))
        } else {
            Err(ConversionError::InvalidInput)
        }
    }

    open spec fn encode_spec(&self, data: Seq<char>) -> Result<Seq<u8>, ConversionError> {
        Ok(encode_utf8(data))
    }

    /// Convert UTF-8 bytes to a string.
    fn to_string(&self, data: &[u8]) -> (r: Result<String, ConversionError>) {
        match decode_bytes(data) {
            Some(v) => Ok(string_from_chars(&v)),
            None => Err(ConversionError::InvalidInput),
        }
    }

    /// Convert a string to UTF-8 bytes.
    fn to_bytes(&self, data: &str) -> (r: Result<Vec<u8>, ConversionError>) {
        let chars = chars_of_str(data);
        Ok(encode_chars(&chars))
    }
}

} // verus!
