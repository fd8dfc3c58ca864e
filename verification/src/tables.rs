//! Byte/scalar tables for the two single-byte code pages the native backend
//! serves: the "ANSI-like" Windows-1251 page and the "OEM-like" DOS-866 page.
//!
//! Each page is a partial injection between byte values and Unicode scalar
//! values. The spec functions [`sb_scalar`] and [`sb_byte`] are the ground
//! truth; the exec lookups are proved equal to them, and the lemmas state
//! that the two directions invert each other.

use vstd::prelude::*;

verus! {

/// A single-byte code page of the native backend.
#[derive(Clone, Copy, Debug, PartialEq, Eq, Structural)]
pub enum SbPage {
    /// Code page 1251, the Cyrillic "ANSI" page.
    Win1251,
    /// Code page 866, the Cyrillic "OEM" page.
    Dos866,
}

/// Unicode scalar value assigned to byte `b` by code page 1251,
/// or `None` for the one byte (0x98) the page leaves undefined.
pub open spec fn win1251_scalar(b: u8) -> Option<u32> {
    if b < 0x80 {
        Some(b as u32)
    } else if b >= 0xC0 {
        // 0xC0..=0xFF are the Cyrillic letters U+0410..=U+044F in order.
        Some((b + 0x350) as u32)
    } else {
        match b {
            0x80 => Some(0x0402),
            0x81 => Some(0x0403),
            0x82 => Some(0x201A),
            0x83 => Some(0x0453),
            0x84 => Some(0x201E),
            0x85 => Some(0x2026),
            0x86 => Some(0x2020),
            0x87 => Some(0x2021),
            0x88 => Some(0x20AC),
            0x89 => Some(0x2030),
            0x8A => Some(0x0409),
            0x8B => Some(0x2039),
            0x8C => Some(0x040A),
            0x8D => Some(0x040C),
            0x8E => Some(0x040B),
            0x8F => Some(0x040F),
            0x90 => Some(0x0452),
            0x91 => Some(0x2018),
            0x92 => Some(0x2019),
            0x93 => Some(0x201C),
            0x94 => Some(0x201D),
            0x95 => Some(0x2022),
            0x96 => Some(0x2013),
            0x97 => Some(0x2014),
            0x99 => Some(0x2122),
            0x9A => Some(0x0459),
            0x9B => Some(0x203A),
            0x9C => Some(0x045A),
            0x9D => Some(0x045C),
            0x9E => Some(0x045B),
            0x9F => Some(0x045F),
            0xA0 => Some(0x00A0),
            0xA1 => Some(0x040E),
            0xA2 => Some(0x045E),
            0xA3 => Some(0x0408),
            0xA4 => Some(0x00A4),
            0xA5 => Some(0x0490),
            0xA6 => Some(0x00A6),
            0xA7 => Some(0x00A7),
            0xA8 => Some(0x0401),
            0xA9 => Some(0x00A9),
            0xAA => Some(0x0404),
            0xAB => Some(0x00AB),
            0xAC => Some(0x00AC),
            0xAD => Some(0x00AD),
            0xAE => Some(0x00AE),
            0xAF => Some(0x0407),
            0xB0 => Some(0x00B0),
            0xB1 => Some(0x00B1),
            0xB2 => Some(0x0406),
            0xB3 => Some(0x0456),
            0xB4 => Some(0x0491),
            0xB5 => Some(0x00B5),
            0xB6 => Some(0x00B6),
            0xB7 => Some(0x00B7),
            0xB8 => Some(0x0451),
            0xB9 => Some(0x2116),
            0xBA => Some(0x0454),
            0xBB => Some(0x00BB),
            0xBC => Some(0x0458),
            0xBD => Some(0x0405),
            0xBE => Some(0x0455),
            0xBF => Some(0x0457),
            _ => None,  // 0x98 is undefined in code page 1251
        }
    }
}

/// Byte assigned by code page 1251 to the Unicode scalar value `u`,
/// or `None` when the page cannot represent it.
pub open spec fn win1251_byte(u: u32) -> Option<u8> {
    if u < 0x80 {
        Some(u as u8)
    } else if 0x410 <= u && u < 0x450 {
        Some((u - 0x350) as u8)
    } else {
        match u {
            0x0402 => Some(0x80),
            0x0403 => Some(0x81),
            0x201A => Some(0x82),
            0x0453 => Some(0x83),
            0x201E => Some(0x84),
            0x2026 => Some(0x85),
            0x2020 => Some(0x86),
            0x2021 => Some(0x87),
            0x20AC => Some(0x88),
            0x2030 => Some(0x89),
            0x0409 => Some(0x8A),
            0x2039 => Some(0x8B),
            0x040A => Some(0x8C),
            0x040C => Some(0x8D),
            0x040B => Some(0x8E),
            0x040F => Some(0x8F),
            0x0452 => Some(0x90),
            0x2018 => Some(0x91),
            0x2019 => Some(0x92),
            0x201C => Some(0x93),
            0x201D => Some(0x94),
            0x2022 => Some(0x95),
            0x2013 => Some(0x96),
            0x2014 => Some(0x97),
            0x2122 => Some(0x99),
            0x0459 => Some(0x9A),
            0x203A => Some(0x9B),
            0x045A => Some(0x9C),
            0x045C => Some(0x9D),
            0x045B => Some(0x9E),
            0x045F => Some(0x9F),
            0x00A0 => Some(0xA0),
            0x040E => Some(0xA1),
            0x045E => Some(0xA2),
            0x0408 => Some(0xA3),
            0x00A4 => Some(0xA4),
            0x0490 => Some(0xA5),
            0x00A6 => Some(0xA6),
            0x00A7 => Some(0xA7),
            0x0401 => Some(0xA8),
            0x00A9 => Some(0xA9),
            0x0404 => Some(0xAA),
            0x00AB => Some(0xAB),
            0x00AC => Some(0xAC),
            0x00AD => Some(0xAD),
            0x00AE => Some(0xAE),
            0x0407 => Some(0xAF),
            0x00B0 => Some(0xB0),
            0x00B1 => Some(0xB1),
            0x0406 => Some(0xB2),
            0x0456 => Some(0xB3),
            0x0491 => Some(0xB4),
            0x00B5 => Some(0xB5),
            0x00B6 => Some(0xB6),
            0x00B7 => Some(0xB7),
            0x0451 => Some(0xB8),
            0x2116 => Some(0xB9),
            0x0454 => Some(0xBA),
            0x00BB => Some(0xBB),
            0x0458 => Some(0xBC),
            0x0405 => Some(0xBD),
            0x0455 => Some(0xBE),
            0x0457 => Some(0xBF),
            _ => None,
        }
    }
}

/// Unicode scalar value assigned to byte `b` by code page 866.
/// Every byte of this page is defined.
pub open spec fn dos866_scalar(b: u8) -> Option<u32> {
    if b < 0x80 {
        Some(b as u32)
    } else if b < 0xB0 {
        // 0x80..=0xAF are the Cyrillic letters U+0410..=U+043F in order.
        Some((b + 0x390) as u32)
    } else if 0xE0 <= b && b < 0xF0 {
        // 0xE0..=0xEF are the Cyrillic letters U+0440..=U+044F in order.
        Some((b + 0x360) as u32)
    } else {
        match b {
            0xB0 => Some(0x2591),
            0xB1 => Some(0x2592),
            0xB2 => Some(0x2593),
            0xB3 => Some(0x2502),
            0xB4 => Some(0x2524),
            0xB5 => Some(0x2561),
            0xB6 => Some(0x2562),
            0xB7 => Some(0x2556),
            0xB8 => Some(0x2555),
            0xB9 => Some(0x2563),
            0xBA => Some(0x2551),
            0xBB => Some(0x2557),
            0xBC => Some(0x255D),
            0xBD => Some(0x255C),
            0xBE => Some(0x255B),
            0xBF => Some(0x2510),
            0xC0 => Some(0x2514),
            0xC1 => Some(0x2534),
            0xC2 => Some(0x252C),
            0xC3 => Some(0x251C),
            0xC4 => Some(0x2500),
            0xC5 => Some(0x253C),
            0xC6 => Some(0x255E),
            0xC7 => Some(0x255F),
            0xC8 => Some(0x255A),
            0xC9 => Some(0x2554),
            0xCA => Some(0x2569),
            0xCB => Some(0x2566),
            0xCC => Some(0x2560),
            0xCD => Some(0x2550),
            0xCE => Some(0x256C),
            0xCF => Some(0x2567),
            0xD0 => Some(0x2568),
            0xD1 => Some(0x2564),
            0xD2 => Some(0x2565),
            0xD3 => Some(0x2559),
            0xD4 => Some(0x2558),
            0xD5 => Some(0x2552),
            0xD6 => Some(0x2553),
            0xD7 => Some(0x256B),
            0xD8 => Some(0x256A),
            0xD9 => Some(0x2518),
            0xDA => Some(0x250C),
            0xDB => Some(0x2588),
            0xDC => Some(0x2584),
            0xDD => Some(0x258C),
            0xDE => Some(0x2590),
            0xDF => Some(0x2580),
            0xF0 => Some(0x0401),
            0xF1 => Some(0x0451),
            0xF2 => Some(0x0404),
            0xF3 => Some(0x0454),
            0xF4 => Some(0x0407),
            0xF5 => Some(0x0457),
            0xF6 => Some(0x040E),
            0xF7 => Some(0x045E),
            0xF8 => Some(0x00B0),
            0xF9 => Some(0x2219),
            0xFA => Some(0x00B7),
            0xFB => Some(0x221A),
            0xFC => Some(0x2116),
            0xFD => Some(0x00A4),
            0xFE => Some(0x25A0),
            _ => Some(0x00A0),  // 0xFF is the no-break space
        }
    }
}

/// Byte assigned by code page 866 to the Unicode scalar value `u`,
/// or `None` when the page cannot represent it.
pub open spec fn dos866_byte(u: u32) -> Option<u8> {
    if u < 0x80 {
        Some(u as u8)
    } else if 0x410 <= u && u < 0x440 {
        Some((u - 0x390) as u8)
    } else if 0x440 <= u && u < 0x450 {
        Some((u - 0x360) as u8)
    } else {
        match u {
            0x2591 => Some(0xB0),
            0x2592 => Some(0xB1),
            0x2593 => Some(0xB2),
            0x2502 => Some(0xB3),
            0x2524 => Some(0xB4),
            0x2561 => Some(0xB5),
            0x2562 => Some(0xB6),
            0x2556 => Some(0xB7),
            0x2555 => Some(0xB8),
            0x2563 => Some(0xB9),
            0x2551 => Some(0xBA),
            0x2557 => Some(0xBB),
            0x255D => Some(0xBC),
            0x255C => Some(0xBD),
            0x255B => Some(0xBE),
            0x2510 => Some(0xBF),
            0x2514 => Some(0xC0),
            0x2534 => Some(0xC1),
            0x252C => Some(0xC2),
            0x251C => Some(0xC3),
            0x2500 => Some(0xC4),
            0x253C => Some(0xC5),
            0x255E => Some(0xC6),
            0x255F => Some(0xC7),
            0x255A => Some(0xC8),
            0x2554 => Some(0xC9),
            0x2569 => Some(0xCA),
            0x2566 => Some(0xCB),
            0x2560 => Some(0xCC),
            0x2550 => Some(0xCD),
            0x256C => Some(0xCE),
            0x2567 => Some(0xCF),
            0x2568 => Some(0xD0),
            0x2564 => Some(0xD1),
            0x2565 => Some(0xD2),
            0x2559 => Some(0xD3),
            0x2558 => Some(0xD4),
            0x2552 => Some(0xD5),
            0x2553 => Some(0xD6),
            0x256B => Some(0xD7),
            0x256A => Some(0xD8),
            0x2518 => Some(0xD9),
            0x250C => Some(0xDA),
            0x2588 => Some(0xDB),
            0x2584 => Some(0xDC),
            0x258C => Some(0xDD),
            0x2590 => Some(0xDE),
            0x2580 => Some(0xDF),
            0x0401 => Some(0xF0),
            0x0451 => Some(0xF1),
            0x0404 => Some(0xF2),
            0x0454 => Some(0xF3),
            0x0407 => Some(0xF4),
            0x0457 => Some(0xF5),
            0x040E => Some(0xF6),
            0x045E => Some(0xF7),
            0x00B0 => Some(0xF8),
            0x2219 => Some(0xF9),
            0x00B7 => Some(0xFA),
            0x221A => Some(0xFB),
            0x2116 => Some(0xFC),
            0x00A4 => Some(0xFD),
            0x25A0 => Some(0xFE),
            0x00A0 => Some(0xFF),
            _ => None,
        }
    }
}

/// Unicode scalar value assigned to byte `b` by the page `p`.
pub open spec fn sb_scalar(p: SbPage, b: u8) -> Option<u32> {
    match p {
        SbPage::Win1251 => win1251_scalar(b),
        SbPage::Dos866 => dos866_scalar(b),
    }
}

/// Byte assigned by the page `p` to the Unicode scalar value `u`.
pub open spec fn sb_byte(p: SbPage, u: u32) -> Option<u8> {
    match p {
        SbPage::Win1251 => win1251_byte(u),
        SbPage::Dos866 => dos866_byte(u),
    }
}

/// Every scalar value a single-byte page assigns lies in the basic
/// multilingual plane, below the surrogate range.
pub proof fn lemma_sb_scalar_bmp(p: SbPage, b: u8)
    ensures
        sb_scalar(p, b) matches Some(u) ==> u < 0xD800,
{
}

/// Decoding a byte and encoding the scalar back yields the same byte:
/// each page's byte-to-scalar table is inverted by its scalar-to-byte table.
pub proof fn lemma_sb_scalar_byte(p: SbPage, b: u8)
    ensures
        sb_scalar(p, b) matches Some(u) ==> sb_byte(p, u) == Some(b),
{
}

/// Encoding a scalar and decoding the byte back yields the same scalar:
/// each page's scalar-to-byte table is inverted by its byte-to-scalar table.
pub proof fn lemma_sb_byte_scalar(p: SbPage, u: u32)
    ensures
        sb_byte(p, u) matches Some(b) ==> sb_scalar(p, b) == Some(u),
{
}

/// Exec lookup of the scalar value for byte `b` of page `p`.
pub fn lookup_scalar(p: SbPage, b: u8) -> (r: Option<u32>)
    ensures
        r == sb_scalar(p, b),
{
    match p {
        SbPage::Win1251 => {
            if b < 0x80 {
                Some(b as u32)
            } else if b >= 0xC0 {
                Some(b as u32 + 0x350)
            } else {
                match b {
                    0x80 => Some(0x0402),
                    0x81 => Some(0x0403),
                    0x82 => Some(0x201A),
                    0x83 => Some(0x0453),
                    0x84 => Some(0x201E),
                    0x85 => Some(0x2026),
                    0x86 => Some(0x2020),
                    0x87 => Some(0x2021),
                    0x88 => Some(0x20AC),
                    0x89 => Some(0x2030),
                    0x8A => Some(0x0409),
                    0x8B => Some(0x2039),
                    0x8C => Some(0x040A),
                    0x8D => Some(0x040C),
                    0x8E => Some(0x040B),
                    0x8F => Some(0x040F),
                    0x90 => Some(0x0452),
                    0x91 => Some(0x2018),
                    0x92 => Some(0x2019),
                    0x93 => Some(0x201C),
                    0x94 => Some(0x201D),
                    0x95 => Some(0x2022),
                    0x96 => Some(0x2013),
                    0x97 => Some(0x2014),
                    0x99 => Some(0x2122),
                    0x9A => Some(0x0459),
                    0x9B => Some(0x203A),
                    0x9C => Some(0x045A),
                    0x9D => Some(0x045C),
                    0x9E => Some(0x045B),
                    0x9F => Some(0x045F),
                    0xA0 => Some(0x00A0),
                    0xA1 => Some(0x040E),
                    0xA2 => Some(0x045E),
                    0xA3 => Some(0x0408),
                    0xA4 => Some(0x00A4),
                    0xA5 => Some(0x0490),
                    0xA6 => Some(0x00A6),
                    0xA7 => Some(0x00A7),
                    0xA8 => Some(0x0401),
                    0xA9 => Some(0x00A9),
                    0xAA => Some(0x0404),
                    0xAB => Some(0x00AB),
                    0xAC => Some(0x00AC),
                    0xAD => Some(0x00AD),
                    0xAE => Some(0x00AE),
                    0xAF => Some(0x0407),
                    0xB0 => Some(0x00B0),
                    0xB1 => Some(0x00B1),
                    0xB2 => Some(0x0406),
                    0xB3 => Some(0x0456),
                    0xB4 => Some(0x0491),
                    0xB5 => Some(0x00B5),
                    0xB6 => Some(0x00B6),
                    0xB7 => Some(0x00B7),
                    0xB8 => Some(0x0451),
                    0xB9 => Some(0x2116),
                    0xBA => Some(0x0454),
                    0xBB => Some(0x00BB),
                    0xBC => Some(0x0458),
                    0xBD => Some(0x0405),
                    0xBE => Some(0x0455),
                    0xBF => Some(0x0457),
                    _ => None,
                }
            }
        },
        SbPage::Dos866 => {
            if b < 0x80 {
                Some(b as u32)
            } else if b < 0xB0 {
                Some(b as u32 + 0x390)
            } else if 0xE0 <= b && b < 0xF0 {
                Some(b as u32 + 0x360)
            } else {
                match b {
                    0xB0 => Some(0x2591),
                    0xB1 => Some(0x2592),
                    0xB2 => Some(0x2593),
                    0xB3 => Some(0x2502),
                    0xB4 => Some(0x2524),
                    0xB5 => Some(0x2561),
                    0xB6 => Some(0x2562),
                    0xB7 => Some(0x2556),
                    0xB8 => Some(0x2555),
                    0xB9 => Some(0x2563),
                    0xBA => Some(0x2551),
                    0xBB => Some(0x2557),
                    0xBC => Some(0x255D),
                    0xBD => Some(0x255C),
                    0xBE => Some(0x255B),
                    0xBF => Some(0x2510),
                    0xC0 => Some(0x2514),
                    0xC1 => Some(0x2534),
                    0xC2 => Some(0x252C),
                    0xC3 => Some(0x251C),
                    0xC4 => Some(0x2500),
                    0xC5 => Some(0x253C),
                    0xC6 => Some(0x255E),
                    0xC7 => Some(0x255F),
                    0xC8 => Some(0x255A),
                    0xC9 => Some(0x2554),
                    0xCA => Some(0x2569),
                    0xCB => Some(0x2566),
                    0xCC => Some(0x2560),
                    0xCD => Some(0x2550),
                    0xCE => Some(0x256C),
                    0xCF => Some(0x2567),
                    0xD0 => Some(0x2568),
                    0xD1 => Some(0x2564),
                    0xD2 => Some(0x2565),
                    0xD3 => Some(0x2559),
                    0xD4 => Some(0x2558),
                    0xD5 => Some(0x2552),
                    0xD6 => Some(0x2553),
                    0xD7 => Some(0x256B),
                    0xD8 => Some(0x256A),
                    0xD9 => Some(0x2518),
                    0xDA => Some(0x250C),
                    0xDB => Some(0x2588),
                    0xDC => Some(0x2584),
                    0xDD => Some(0x258C),
                    0xDE => Some(0x2590),
                    0xDF => Some(0x2580),
                    0xF0 => Some(0x0401),
                    0xF1 => Some(0x0451),
                    0xF2 => Some(0x0404),
                    0xF3 => Some(0x0454),
                    0xF4 => Some(0x0407),
                    0xF5 => Some(0x0457),
                    0xF6 => Some(0x040E),
                    0xF7 => Some(0x045E),
                    0xF8 => Some(0x00B0),
                    0xF9 => Some(0x2219),
                    0xFA => Some(0x00B7),
                    0xFB => Some(0x221A),
                    0xFC => Some(0x2116),
                    0xFD => Some(0x00A4),
                    0xFE => Some(0x25A0),
                    _ => Some(0x00A0),
                }
            }
        },
    }
}

/// Exec lookup of the byte for Unicode scalar value `u` in page `p`.
pub fn lookup_byte(p: SbPage, u: u32) -> (r: Option<u8>)
    ensures
        r == sb_byte(p, u),
{
    match p {
        SbPage::Win1251 => {
            if u < 0x80 {
                Some(u as u8)
            } else if 0x410 <= u && u < 0x450 {
                Some((u - 0x350) as u8)
            } else {
                match u {
                    0x0402 => Some(0x80),
                    0x0403 => Some(0x81),
                    0x201A => Some(0x82),
                    0x0453 => Some(0x83),
                    0x201E => Some(0x84),
                    0x2026 => Some(0x85),
                    0x2020 => Some(0x86),
                    0x2021 => Some(0x87),
                    0x20AC => Some(0x88),
                    0x2030 => Some(0x89),
                    0x0409 => Some(0x8A),
                    0x2039 => Some(0x8B),
                    0x040A => Some(0x8C),
                    0x040C => Some(0x8D),
                    0x040B => Some(0x8E),
                    0x040F => Some(0x8F),
                    0x0452 => Some(0x90),
                    0x2018 => Some(0x91),
                    0x2019 => Some(0x92),
                    0x201C => Some(0x93),
                    0x201D => Some(0x94),
                    0x2022 => Some(0x95),
                    0x2013 => Some(0x96),
                    0x2014 => Some(0x97),
                    0x2122 => Some(0x99),
                    0x0459 => Some(0x9A),
                    0x203A => Some(0x9B),
                    0x045A => Some(0x9C),
                    0x045C => Some(0x9D),
                    0x045B => Some(0x9E),
                    0x045F => Some(0x9F),
                    0x00A0 => Some(0xA0),
                    0x040E => Some(0xA1),
                    0x045E => Some(0xA2),
                    0x0408 => Some(0xA3),
                    0x00A4 => Some(0xA4),
                    0x0490 => Some(0xA5),
                    0x00A6 => Some(0xA6),
                    0x00A7 => Some(0xA7),
                    0x0401 => Some(0xA8),
                    0x00A9 => Some(0xA9),
                    0x0404 => Some(0xAA),
                    0x00AB => Some(0xAB),
                    0x00AC => Some(0xAC),
                    0x00AD => Some(0xAD),
                    0x00AE => Some(0xAE),
                    0x0407 => Some(0xAF),
                    0x00B0 => Some(0xB0),
                    0x00B1 => Some(0xB1),
                    0x0406 => Some(0xB2),
                    0x0456 => Some(0xB3),
                    0x0491 => Some(0xB4),
                    0x00B5 => Some(0xB5),
                    0x00B6 => Some(0xB6),
                    0x00B7 => Some(0xB7),
                    0x0451 => Some(0xB8),
                    0x2116 => Some(0xB9),
                    0x0454 => Some(0xBA),
                    0x00BB => Some(0xBB),
                    0x0458 => Some(0xBC),
                    0x0405 => Some(0xBD),
                    0x0455 => Some(0xBE),
                    0x0457 => Some(0xBF),
                    _ => None,
                }
            }
        },
        SbPage::Dos866 => {
            if u < 0x80 {
                Some(u as u8)
            } else if 0x410 <= u && u < 0x440 {
                Some((u - 0x390) as u8)
            } else if 0x440 <= u && u < 0x450 {
                Some((u - 0x360) as u8)
            } else {
                match u {
                    0x2591 => Some(0xB0),
                    0x2592 => Some(0xB1),
                    0x2593 => Some(0xB2),
                    0x2502 => Some(0xB3),
                    0x2524 => Some(0xB4),
                    0x2561 => Some(0xB5),
                    0x2562 => Some(0xB6),
                    0x2556 => Some(0xB7),
                    0x2555 => Some(0xB8),
                    0x2563 => Some(0xB9),
                    0x2551 => Some(0xBA),
                    0x2557 => Some(0xBB),
                    0x255D => Some(0xBC),
                    0x255C => Some(0xBD),
                    0x255B => Some(0xBE),
                    0x2510 => Some(0xBF),
                    0x2514 => Some(0xC0),
                    0x2534 => Some(0xC1),
                    0x252C => Some(0xC2),
                    0x251C => Some(0xC3),
                    0x2500 => Some(0xC4),
                    0x253C => Some(0xC5),
                    0x255E => Some(0xC6),
                    0x255F => Some(0xC7),
                    0x255A => Some(0xC8),
                    0x2554 => Some(0xC9),
                    0x2569 => Some(0xCA),
                    0x2566 => Some(0xCB),
                    0x2560 => Some(0xCC),
                    0x2550 => Some(0xCD),
                    0x256C => Some(0xCE),
                    0x2567 => Some(0xCF),
                    0x2568 => Some(0xD0),
                    0x2564 => Some(0xD1),
                    0x2565 => Some(0xD2),
                    0x2559 => Some(0xD3),
                    0x2558 => Some(0xD4),
                    0x2552 => Some(0xD5),
                    0x2553 => Some(0xD6),
                    0x256B => Some(0xD7),
                    0x256A => Some(0xD8),
                    0x2518 => Some(0xD9),
                    0x250C => Some(0xDA),
                    0x2588 => Some(0xDB),
                    0x2584 => Some(0xDC),
                    0x258C => Some(0xDD),
                    0x2590 => Some(0xDE),
                    0x2580 => Some(0xDF),
                    0x0401 => Some(0xF0),
                    0x0451 => Some(0xF1),
                    0x0404 => Some(0xF2),
                    0x0454 => Some(0xF3),
                    0x0407 => Some(0xF4),
                    0x0457 => Some(0xF5),
                    0x040E => Some(0xF6),
                    0x045E => Some(0xF7),
                    0x00B0 => Some(0xF8),
                    0x2219 => Some(0xF9),
                    0x00B7 => Some(0xFA),
                    0x221A => Some(0xFB),
                    0x2116 => Some(0xFC),
                    0x00A4 => Some(0xFD),
                    0x25A0 => Some(0xFE),
                    0x00A0 => Some(0xFF),
                    _ => None,
                }
            }
        },
    }
}

} // verus!
