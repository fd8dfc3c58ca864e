//! The UTF-16 intermediate form the native backend converts through:
//! specifications of well-formed wide-unit sequences, their decoding to
//! characters and the encoding of characters to units, with executable
//! conversions proved against them.

use vstd::prelude::*;
use vstd::utf8::is_scalar;
use vstd::utf8::char_is_scalar;
use vstd::utf8::char_u32_cast;
use vstd::arithmetic::div_mod::lemma_fundamental_div_mod;
use crate::utf8::char_from_scalar;

verus! {

/// True for a UTF-16 high (leading) surrogate unit.
pub open spec fn is_high_surrogate(u: u16) -> bool {
    0xD800 <= u <= 0xDBFF
}

/// True for a UTF-16 low (trailing) surrogate unit.
pub open spec fn is_low_surrogate(u: u16) -> bool {
    0xDC00 <= u <= 0xDFFF
}

/// True when the unit sequence begins with a well-formed encoding of one
/// scalar: a unit outside the surrogate range, or a high surrogate
/// followed by a low surrogate.
pub open spec fn wide_valid_first(w: Seq<u16>) -> bool {
    &&& w.len() >= 1
    &&& if is_high_surrogate(w[0]) {
        w.len() >= 2 && is_low_surrogate(w[1])
    } else {
        !is_low_surrogate(w[0])
    }
}

/// Number of units in the first scalar's encoding.
pub open spec fn wide_first_len(w: Seq<u16>) -> int {
    if is_high_surrogate(w[0]) {
        2
    } else {
        1
    }
}

/// The scalar value held by the first encoded scalar.
pub open spec fn wide_first_scalar(w: Seq<u16>) -> u32 {
    if is_high_surrogate(w[0]) {
        (0x10000 + (w[0] - 0xD800) * 0x400 + (w[1] - 0xDC00)) as u32
    } else {
        w[0] as u32
    }
}

/// True when the whole unit sequence is well-formed UTF-16.
pub open spec fn wide_valid(w: Seq<u16>) -> bool
    decreases w.len(),
{
    w.len() == 0 || (wide_valid_first(w) && wide_valid(w.skip(wide_first_len(w))))
}

/// The characters encoded by a well-formed unit sequence.
pub open spec fn wide_decode(w: Seq<u16>) -> Seq<char>
    decreases w.len(),
    when wide_valid(w)
{
    if w.len() == 0 {
        Seq::empty()
    } else {
        seq![wide_first_scalar(w) as char] + wide_decode(w.skip(wide_first_len(w)))
    }
}

/// The UTF-16 encoding of one character.
pub open spec fn wide_encode_char(c: char) -> Seq<u16> {
    let u = c as u32;
    if u < 0x10000 {
        seq![u as u16]
    } else {
        seq![(0xD800 + (u - 0x10000) / 0x400) as u16, (0xDC00 + (u - 0x10000) % 0x400) as u16]
    }
}

/// The UTF-16 encoding of a character sequence.
pub open spec fn wide_encode(s: Seq<char>) -> Seq<u16>
    decreases s.len(),
{
    if s.len() == 0 {
        Seq::empty()
    } else {
        wide_encode_char(s[0]) + wide_encode(s.drop_first())
    }
}

/// The first scalar of a well-formed sequence is a Unicode scalar value.
pub proof fn lemma_wide_first_scalar_is_scalar(w: Seq<u16>)
    requires
        wide_valid_first(w),
    ensures
        is_scalar(wide_first_scalar(w)),
{
}

/// The encoding of one character, followed by anything, begins with a
/// well-formed scalar encoding that holds exactly that character's value.
pub proof fn lemma_wide_encode_char_first(c: char, rest: Seq<u16>)
    ensures
        ({
            let w = wide_encode_char(c) + rest;
            &&& wide_valid_first(w)
            &&& wide_first_len(w) == wide_encode_char(c).len()
            &&& wide_first_scalar(w) == c as u32
        }),
{
    char_is_scalar(c);
    let u = c as u32;
    let w = wide_encode_char(c) + rest;
    if u < 0x10000 {
        assert(w[0] == (u as u16));
    } else {
        let hi = 0xD800 + (u - 0x10000) / 0x400;
        let lo = 0xDC00 + (u - 0x10000) % 0x400;
        lemma_fundamental_div_mod(u - 0x10000, 0x400);
        assert(0 <= (u - 0x10000) % 0x400 < 0x400);
        assert((u - 0x10000) / 0x400 <= 0x3FF);
        assert(w[0] == (hi as u16) && w[1] == (lo as u16));
        assert(is_high_surrogate(w[0]) && is_low_surrogate(w[1]));
        assert(wide_first_scalar(w) == u);
    }
}

/// Concatenating two well-formed unit sequences is well-formed, and decodes
/// to the concatenation of their decodings.
pub proof fn lemma_wide_concat(a: Seq<u16>, b: Seq<u16>)
    requires
        wide_valid(a),
        wide_valid(b),
    ensures
        wide_valid(a + b),
        wide_decode(a + b) == wide_decode(a) + wide_decode(b),
    decreases a.len(),
{
    if a.len() == 0 {
        assert(a + b =~= b);
        assert(wide_decode(a) + wide_decode(b) =~= wide_decode(b));
    } else {
        let k = wide_first_len(a);
        lemma_wide_concat(a.skip(k), b);
        assert((a + b).skip(k) =~= a.skip(k) + b);
        assert(wide_valid(a + b));
        assert(wide_decode(a + b) =~= wide_decode(a) + wide_decode(b));
    }
}

/// A well-formed sequence with a well-formed prefix splits: the suffix is
/// well-formed too, and the decodings concatenate.
pub proof fn lemma_wide_valid_split(w: Seq<u16>, i: int)
    requires
        wide_valid(w),
        0 <= i <= w.len(),
        wide_valid(w.subrange(0, i)),
    ensures
        wide_valid(w.subrange(i, w.len() as int)),
        wide_decode(w) == wide_decode(w.subrange(0, i)) + wide_decode(
            w.subrange(i, w.len() as int),
        ),
    decreases i,
{
    let pre = w.subrange(0, i);
    let suf = w.subrange(i, w.len() as int);
    if i == 0 {
        assert(suf =~= w);
        assert(wide_decode(pre) + wide_decode(suf) =~= wide_decode(w));
    } else {
        let k = wide_first_len(w);
        assert(pre[0] == w[0]);
        assert(wide_valid_first(pre));
        assert(wide_first_len(pre) == k);
        assert(i >= k);
        assert(w.skip(k).subrange(0, i - k) =~= pre.skip(k));
        assert(wide_valid(pre.skip(k)));
        lemma_wide_valid_split(w.skip(k), i - k);
        assert(w.skip(k).subrange(i - k, w.skip(k).len() as int) =~= suf);
        assert(wide_first_scalar(pre) == wide_first_scalar(w));
        assert(wide_decode(w) =~= wide_decode(pre) + wide_decode(suf));
    }
}

/// Encoding then decoding a character sequence through UTF-16 is the
/// identity: the wide form is well-formed and decodes back to the sequence.
pub proof fn lemma_wide_round_trip(s: Seq<char>)
    ensures
        wide_valid(wide_encode(s)),
        wide_decode(wide_encode(s)) == s,
    decreases s.len(),
{
    if s.len() == 0 {
        assert(wide_decode(wide_encode(s)) =~= s);
    } else {
        let w = wide_encode(s);
        let rest = wide_encode(s.drop_first());
        lemma_wide_round_trip(s.drop_first());
        lemma_wide_encode_char_first(s[0], rest);
        let k = wide_first_len(w);
        assert(w.skip(k) =~= rest);
        char_u32_cast(s[0], wide_first_scalar(w));
        assert(wide_decode(w) =~= s);
    }
}

/// Appending one character's encoding extends the encoding of the sequence.
pub proof fn lemma_wide_encode_snoc(s: Seq<char>, c: char)
    ensures
        wide_encode(s.push(c)) == wide_encode(s) + wide_encode_char(c),
    decreases s.len(),
{
    if s.len() == 0 {
        let p = s.push(c);
        assert(p[0] == c);
        assert(p.drop_first() =~= Seq::<char>::empty());
        assert(wide_encode(p) == wide_encode_char(c) + wide_encode(Seq::<char>::empty()));
        assert(wide_encode(s.push(c)) =~= wide_encode(s) + wide_encode_char(c));
    } else {
        lemma_wide_encode_snoc(s.drop_first(), c);
        assert(s.push(c).drop_first() =~= s.drop_first().push(c));
        assert(s.push(c)[0] == s[0]);
        assert(wide_encode(s.push(c)) =~= wide_encode(s) + wide_encode_char(c));
    }
}

/// Encodes characters as UTF-16 units.
pub fn encode_wide(chars: &Vec<char>) -> (r: Vec<u16>)
    ensures
        r@ == wide_encode(chars@),
{
    let mut out: Vec<u16> = Vec::new();
    let mut i: usize = 0;
    while i < chars.len()
        invariant
            i <= chars.len(),
            out@ == wide_encode(chars@.subrange(0, i as int)),
        decreases chars.len() - i,
    {
        let c = chars[i];
        let u = c as u32;
        proof {
            char_is_scalar(c);
        }
        if u < 0x10000 {
            out.push(u as u16);
        } else {
            proof {
                lemma_fundamental_div_mod((u - 0x10000) as int, 0x400);
            }
            out.push(0xD800 + ((u - 0x10000) / 0x400) as u16);
            out.push(0xDC00 + ((u - 0x10000) % 0x400) as u16);
        }
        proof {
            lemma_wide_encode_snoc(chars@.subrange(0, i as int), c);
            assert(chars@.subrange(0, i as int).push(c) =~= chars@.subrange(0, i + 1));
            assert(out@ =~= wide_encode(chars@.subrange(0, i + 1)));
        }
        i += 1;
    }
    proof {
        assert(chars@.subrange(0, chars.len() as int) =~= chars@);
    }
    out
}

/// Decodes UTF-16 units into characters; returns `None` exactly when the
/// sequence is ill-formed.
pub fn decode_wide(units: &[u16]) -> (r: Option<Vec<char>>)
    ensures
        match r {
            Some(v) => wide_valid(units@) && v@ == wide_decode(units@),
            None => !wide_valid(units@),
        },
{
    let n = units.len();
    let mut out: Vec<char> = Vec::new();
    let mut i: usize = 0;
    while i < n
        invariant
            i <= n,
            n == units@.len(),
            wide_valid(units@.subrange(0, i as int)),
            out@ == wide_decode(units@.subrange(0, i as int)),
        decreases n - i,
    {
        let ghost suffix = units@.subrange(i as int, n as int);
        let u0 = units[i];
        let width: usize;
        let cp: u32;
        if 0xD800 <= u0 && u0 <= 0xDBFF {
            if i + 1 >= n || !(0xDC00 <= units[i + 1] && units[i + 1] <= 0xDFFF) {
                proof {
                    assert(!wide_valid_first(suffix));
                    assert(!wide_valid(units@)) by {
                        if wide_valid(units@) {
                            lemma_wide_valid_split(units@, i as int);
                        }
                    }
                }
                return None;
            }
            let u1 = units[i + 1];
            width = 2;
            cp = 0x10000 + ((u0 - 0xD800) as u32) * 0x400 + ((u1 - 0xDC00) as u32);
            proof {
                assert(cp == wide_first_scalar(suffix));
            }
        } else if 0xDC00 <= u0 && u0 <= 0xDFFF {
            proof {
                assert(!wide_valid_first(suffix));
                assert(!wide_valid(units@)) by {
                    if wide_valid(units@) {
                        lemma_wide_valid_split(units@, i as int);
                    }
                }
            }
            return None;
        } else {
            width = 1;
            cp = u0 as u32;
            proof {
                assert(cp == wide_first_scalar(suffix));
            }
        }
        proof {
            assert(wide_valid_first(suffix));
            assert(wide_first_len(suffix) == width);
            lemma_wide_first_scalar_is_scalar(suffix);
        }
        let c = char_from_scalar(cp);
        out.push(c);
        proof {
            let pre = units@.subrange(0, i as int);
            let scal = units@.subrange(i as int, i + width);
            assert(wide_valid_first(scal));
            assert(wide_first_len(scal) == width);
            assert(scal.skip(width as int) =~= Seq::<u16>::empty());
            assert(wide_valid(Seq::<u16>::empty()));
            assert(wide_valid(scal));
            assert(wide_first_scalar(scal) == cp);
            assert(wide_decode(Seq::<u16>::empty()) =~= Seq::<char>::empty());
            assert(wide_decode(scal) == seq![wide_first_scalar(scal) as char] + wide_decode(
                scal.skip(wide_first_len(scal)),
            ));
            assert(wide_decode(scal) =~= seq![cp as char]);
            lemma_wide_concat(pre, scal);
            assert(pre + scal =~= units@.subrange(0, i + width));
            assert(out@ =~= wide_decode(units@.subrange(0, i + width)));
        }
        i += width;
    }
    proof {
        assert(units@.subrange(0, n as int) =~= units@);
    }
    Some(out)
}

} // verus!
