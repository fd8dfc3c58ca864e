//! Executable UTF-8 encoding and decoding, verified against the
//! specifications of `vstd::utf8` (`encode_utf8`, `decode_utf8`,
//! `valid_utf8`), together with the two small trusted bridges to the
//! standard library that string construction needs.

use vstd::prelude::*;
use vstd::utf8::*;

verus! {

/// Relies on `char::from_u32`: for every Unicode scalar value it returns the
/// character with exactly that value.
#[verifier::external_body]
pub(crate) fn char_from_scalar(u: u32) -> (c: char)
    requires
        is_scalar(u),
    ensures
        c == u as char,
        c as u32 == u,
{
    match char::from_u32(u) {
        Some(c) => c,
        None => ' ',
    }
}

/// Relies on `String::from_utf8`: bytes that are valid UTF-8 become the
/// string whose UTF-8 encoding is exactly those bytes.
#[verifier::external_body]
fn string_from_utf8(bytes: Vec<u8>) -> (r: String)
    requires
        valid_utf8(bytes@),
    ensures
        encode_utf8(r@) == bytes@,
{
    match String::from_utf8(bytes) {
        Ok(s) => s,
        Err(_) => String::new(),
    }
}

/// Appending one character's encoding extends the encoding of the sequence.
pub proof fn lemma_encode_utf8_snoc(s: Seq<char>, c: char)
    ensures
        encode_utf8(s.push(c)) == encode_utf8(s) + encode_scalar(c as u32),
    decreases s.len(),
{
    if s.len() == 0 {
        let p = s.push(c);
        assert(p[0] == c);
        assert(p.drop_first() =~= Seq::<char>::empty());
        assert(encode_utf8(p) == encode_scalar(c as u32) + encode_utf8(Seq::<char>::empty()));
        assert(encode_utf8(s.push(c)) =~= encode_utf8(s) + encode_scalar(c as u32));
    } else {
        lemma_encode_utf8_snoc(s.drop_first(), c);
        assert(s.push(c).drop_first() =~= s.drop_first().push(c));
        assert(encode_utf8(s.push(c)) =~= encode_utf8(s) + encode_scalar(c as u32));
    }
}

/// Appends the UTF-8 encoding of `c` to `out`.
fn push_scalar(out: &mut Vec<u8>, c: char)
    ensures
        final(out)@ == old(out)@ + encode_scalar(c as u32),
{
    let u = c as u32;
    proof {
        char_is_scalar(c);
    }
    if u < 0x80 {
        out.push((u & 0x7F) as u8);
        assert(final(out)@ =~= old(out)@ + encode_scalar(c as u32));
    } else if u < 0x800 {
        out.push(0xC0 | ((u >> 6) & 0x1F) as u8);
        out.push(0x80 | (u & 0x3F) as u8);
        assert(final(out)@ =~= old(out)@ + encode_scalar(c as u32));
    } else if u < 0x10000 {
        out.push(0xE0 | ((u >> 12) & 0x0F) as u8);
        out.push(0x80 | ((u >> 6) & 0x3F) as u8);
        out.push(0x80 | (u & 0x3F) as u8);
        assert(final(out)@ =~= old(out)@ + encode_scalar(c as u32));
    } else {
        out.push(0xF0 | ((u >> 18) & 0x7) as u8);
        out.push(0x80 | ((u >> 12) & 0x3F) as u8);
        out.push(0x80 | ((u >> 6) & 0x3F) as u8);
        out.push(0x80 | (u & 0x3F) as u8);
        assert(final(out)@ =~= old(out)@ + encode_scalar(c as u32));
    }
}

/// UTF-8 encodes a character sequence.
pub fn encode_chars(chars: &Vec<char>) -> (r: Vec<u8>)
    ensures
        r@ == encode_utf8(chars@),
{
    let mut out: Vec<u8> = Vec::new();
    let mut i: usize = 0;
    while i < chars.len()
        invariant
            i <= chars.len(),
            out@ == encode_utf8(chars@.subrange(0, i as int)),
        decreases chars.len() - i,
    {
        push_scalar(&mut out, chars[i]);
        proof {
            lemma_encode_utf8_snoc(chars@.subrange(0, i as int), chars@[i as int]);
            assert(chars@.subrange(0, i as int).push(chars@[i as int]) =~= chars@.subrange(
                0,
                i + 1,
            ));
        }
        i += 1;
    }
    proof {
        assert(chars@.subrange(0, chars.len() as int) =~= chars@);
    }
    out
}

/// Builds the string holding exactly the given characters.
pub fn string_from_chars(chars: &Vec<char>) -> (r: String)
    ensures
        r@ == chars@,
{
    let bytes = encode_chars(chars);
    proof {
        encode_utf8_valid_utf8(chars@);
    }
    let s = string_from_utf8(bytes);
    proof {
        encode_utf8_decode_utf8(chars@);
        encode_utf8_decode_utf8(s@);
    }
    s
}

/// Decodes UTF-8 bytes into characters; returns `None` exactly when the
/// bytes are not a valid UTF-8 encoding.
pub fn decode_bytes(bytes: &[u8]) -> (r: Option<Vec<char>>)
    ensures
        match r {
            Some(v) => valid_utf8(bytes@) && v@ == decode_utf8(bytes@),
            None => !valid_utf8(bytes@),
        },
{
    let n = bytes.len();
    let mut out: Vec<char> = Vec::new();
    let mut i: usize = 0;
    while i < n
        invariant
            i <= n,
            n == bytes@.len(),
            partial_valid_utf8(bytes@, i as int),
            out@ == decode_utf8(bytes@.subrange(0, i as int)),
        decreases n - i,
    {
        let ghost suffix = bytes@.subrange(i as int, n as int);
        let b0 = bytes[i];
        let width: usize;
        let cp: u32;
        if b0 < 0x80 {
            width = 1;
            cp = b0 as u32;
            proof {
                assert((b0 & 0x7F) == b0) by (bit_vector)
                    requires
                        b0 < 0x80,
                ;
                assert(cp == codepoint_width_1(suffix[0]));
            }
        } else if 0xC0 <= b0 && b0 <= 0xDF {
            if i + 1 >= n || !(0x80 <= bytes[i + 1] && bytes[i + 1] <= 0xBF) {
                proof {
                    assert(!valid_first_scalar(suffix));
                    partial_valid_partial_invalid_utf8(bytes@, i as int);
                }
                return None;
            }
            width = 2;
            let b1 = bytes[i + 1];
            cp = (((b0 & 0x1F) as u32) << 6) | (b1 & 0x3F) as u32;
            proof {
                assert(cp == codepoint_width_2(suffix[0], suffix[1]));
                assert((((b0 & 0x1F) as u32) << 6) | ((b1 & 0x3F) as u32) <= 0x7FF)
                    by (bit_vector);
            }
            if cp < 0x80 {
                proof {
                    assert(!valid_first_scalar(suffix));
                    partial_valid_partial_invalid_utf8(bytes@, i as int);
                }
                return None;
            }
        } else if 0xE0 <= b0 && b0 <= 0xEF {
            if n - i < 3 || !(0x80 <= bytes[i + 1] && bytes[i + 1] <= 0xBF) || !(0x80 <= bytes[i
                + 2] && bytes[i + 2] <= 0xBF) {
                proof {
                    assert(!valid_first_scalar(suffix));
                    partial_valid_partial_invalid_utf8(bytes@, i as int);
                }
                return None;
            }
            width = 3;
            let b1 = bytes[i + 1];
            let b2 = bytes[i + 2];
            cp = (((b0 & 0x0F) as u32) << 12) | (((b1 & 0x3F) as u32) << 6) | (b2 & 0x3F) as u32;
            proof {
                assert(cp == codepoint_width_3(suffix[0], suffix[1], suffix[2]));
                assert((((b0 & 0x0F) as u32) << 12) | (((b1 & 0x3F) as u32) << 6) | ((b2
                    & 0x3F) as u32) <= 0xFFFF) by (bit_vector);
            }
            if cp < 0x800 || (0xD800 <= cp && cp <= 0xDFFF) {
                proof {
                    assert(!valid_first_scalar(suffix));
                    partial_valid_partial_invalid_utf8(bytes@, i as int);
                }
                return None;
            }
        } else if 0xF0 <= b0 && b0 <= 0xF7 {
            if n - i < 4 || !(0x80 <= bytes[i + 1] && bytes[i + 1] <= 0xBF) || !(0x80 <= bytes[i
                + 2] && bytes[i + 2] <= 0xBF) || !(0x80 <= bytes[i + 3] && bytes[i + 3] <= 0xBF) {
                proof {
                    assert(!valid_first_scalar(suffix));
                    partial_valid_partial_invalid_utf8(bytes@, i as int);
                }
                return None;
            }
            width = 4;
            cp = (((b0 & 0x07) as u32) << 18) | (((bytes[i + 1] & 0x3F) as u32) << 12) | (((bytes[i
                + 2] & 0x3F) as u32) << 6) | (bytes[i + 3] & 0x3F) as u32;
            proof {
                assert(cp == codepoint_width_4(suffix[0], suffix[1], suffix[2], suffix[3]));
            }
            if !(0x10000 <= cp && cp <= 0x10FFFF) {
                proof {
                    assert(!valid_first_scalar(suffix));
                    partial_valid_partial_invalid_utf8(bytes@, i as int);
                }
                return None;
            }
        } else {
            proof {
                assert(!valid_first_scalar(suffix));
                partial_valid_partial_invalid_utf8(bytes@, i as int);
            }
            return None;
        }
        proof {
            assert(valid_first_scalar(suffix));
            assert(length_of_first_scalar(suffix) == width);
            assert(decode_first_scalar(suffix) == cp);
            assert(is_scalar(cp));
            partial_valid_utf8_extend(bytes@, i as int);
        }
        let c = char_from_scalar(cp);
        out.push(c);
        proof {
            let pre = bytes@.subrange(0, i as int);
            let pre2 = bytes@.subrange(0, i + width);
            assert(valid_utf8(pre2));
            is_char_boundary_iff_not_is_continuation_byte(pre2, i as int);
            decode_utf8_split(pre2, i as int);
            assert(pre2.subrange(0, i as int) =~= pre);
            let scal = pre2.subrange(i as int, pre2.len() as int);
            assert(valid_utf8(scal)) by {
                valid_utf8_split(pre2, i as int);
            }
            assert(length_of_first_scalar(scal) == width);
            assert(decode_first_scalar(scal) == cp);
            assert(pop_first_scalar(scal) =~= Seq::<u8>::empty());
            assert(valid_utf8(Seq::<u8>::empty()));
            assert(decode_utf8(Seq::<u8>::empty()) =~= Seq::<char>::empty());
            assert(decode_utf8(scal) == seq![decode_first_scalar(scal) as char] + decode_utf8(
                pop_first_scalar(scal),
            ));
            assert(decode_utf8(scal) =~= seq![cp as char]);
            assert(out@ =~= decode_utf8(pre2));
        }
        i += width;
    }
    proof {
        assert(bytes@.subrange(0, n as int) =~= bytes@);
    }
    Some(out)
}

/// The characters of a string slice, in order.
pub fn chars_of_str(s: &str) -> (r: Vec<char>)
    ensures
        r@ == s@,
{
    let bytes = s.as_bytes();
    proof {
        encode_utf8_valid_utf8(s@);
    }
    match decode_bytes(bytes) {
        Some(v) => {
            proof {
                encode_utf8_decode_utf8(s@);
            }
            v
        },
        None => {
            proof {
                assert(false);
            }
            Vec::new()
        },
    }
}

} // verus!
