//! An RGB colour with a brightness measure and exact hex serialisation.

use vstd::prelude::*;

use crate::text::chars_to_string;
use vstd::string::StrSliceExecFns;

verus! {

/// Multiplies `x` by `(scale + 1) / 256`, the classic 8-bit scaling trick:
/// the result of `scale8(x, s)` is `x * (s + 1) / 256`, rounded down.
pub open spec fn scale8_spec(x: u8, scale: u8) -> int {
    (x as int) * (scale as int + 1) / 256
}

/// Scales the byte `x` by `(scale + 1) / 256`.
pub fn scale8(x: u8, scale: u8) -> (r: u8)
    ensures
        r as int == scale8_spec(x, scale),
{
    proof {
        assert((x as int) * (scale as int + 1) <= 255 * 256) by (nonlinear_arith)
            requires
                x <= 255,
                scale <= 255,
        ;
        assert((x as int) * (scale as int + 1) >= 0) by (nonlinear_arith)
            requires
                x >= 0,
                scale >= 0,
        ;
    }
    (((x as u16) * (1u16 + (scale as u16))) / 256) as u8
}

/// An RGB colour: three 8-bit channels, no alpha.
#[derive(Debug, PartialEq, Eq, Clone, Copy, Structural)]
pub struct Colour {
    pub r: u8,
    pub g: u8,
    pub b: u8,
}

/// The perceived lightness of a colour: a luma approximation weighting
/// green most (184/256), then red (55/256), then blue (19/256).  The
/// weights add up to 258/256, but the rounding in each term keeps the sum
/// of the three terms within a byte.
pub open spec fn brightness_spec(c: Colour) -> int {
    scale8_spec(c.r, 54) + scale8_spec(c.g, 183) + scale8_spec(c.b, 18)
}

/// The hexadecimal digit `d` as a lowercase character; meaningful for
/// `0 <= d <= 15`.
pub open spec fn hex_digit(d: int) -> char {
    if d < 10 {
        crate::text::dec_digit(d)
    } else if d == 10 {
        'a'
    } else if d == 11 {
        'b'
    } else if d == 12 {
        'c'
    } else if d == 13 {
        'd'
    } else if d == 14 {
        'e'
    } else {
        'f'
    }
}

/// The byte `v` as two lowercase hexadecimal digits.
pub open spec fn hex_byte(v: u8) -> Seq<char> {
    seq![hex_digit(v as int / 16), hex_digit(v as int % 16)]
}

/// The `#rrggbb` form of a colour: lowercase, always six digits.
pub open spec fn colour_hex(c: Colour) -> Seq<char> {
    seq!['#'] + hex_byte(c.r) + hex_byte(c.g) + hex_byte(c.b)
}

/// The hexadecimal digit `d` as a lowercase character.
fn hex_digit_char(d: u8) -> (c: char)
    requires
        d <= 15,
    ensures
        c == hex_digit(d as int),
{
    if d < 10 {
        crate::text::dec_digit_char(d as u64)
    } else if d == 10 {
        'a'
    } else if d == 11 {
        'b'
    } else if d == 12 {
        'c'
    } else if d == 13 {
        'd'
    } else if d == 14 {
        'e'
    } else {
        'f'
    }
}

impl Colour {
    /// Create a new colour from an integer representation of an RGB colour:
    /// the low three bytes of `code` are the red, green and blue channels.
    pub fn from_colour_code(code: u32) -> (c: Colour)
        ensures
            c.r as int == (code as int / 65536) % 256,
            c.g as int == (code as int / 256) % 256,
            c.b as int == code as int % 256,
    {
        proof {
            assert((code >> 16) & 0xff == (code / 65536) % 256 && (code >> 8) & 0xff == (code
                / 256) % 256 && code & 0xff == code % 256 && (code >> 16) & 0xff < 256 && (code
                >> 8) & 0xff < 256 && code & 0xff < 256) by (bit_vector);
        }
        Colour {
            r: ((code >> 16) & 0xff) as u8,
            g: ((code >> 8) & 0xff) as u8,
            b: (code & 0xff) as u8,
        }
    }

    /// Create a new colour from RGB values.
    pub fn from_rgb(r: u8, g: u8, b: u8) -> (c: Colour)
        ensures
            c == (Colour { r, g, b }),
    {
        Colour { r, g, b }
    }

    /// Returns the brightness of the colour, as a value between 0 and 255.
    ///
    /// A colour brighter than [`crate::BRIGHTNESS_THRESHOLD`] is considered
    /// light and gets charcoal text; any other colour gets white text.
    pub fn brightness(self) -> (r: u8)
        ensures
            r as int == brightness_spec(self),
    {
        let mut luma: u8 = scale8(self.r, 54);
        proof {
            assert(scale8_spec(self.r, 54) <= 54 && scale8_spec(self.g, 183) <= 183
                && scale8_spec(self.b, 18) <= 18);
        }
        luma = luma + scale8(self.g, 183);
        luma = luma + scale8(self.b, 18);
        luma
    }

    /// The `#rrggbb` form of the colour, lowercase and always six digits.
    pub fn to_hex_string(self) -> (r: String)
        ensures
            r@ == colour_hex(self),
    {
        let mut out: Vec<char> = Vec::new();
        out.push('#');
        out.push(hex_digit_char(self.r / 16));
        out.push(hex_digit_char(self.r % 16));
        out.push(hex_digit_char(self.g / 16));
        out.push(hex_digit_char(self.g % 16));
        out.push(hex_digit_char(self.b / 16));
        out.push(hex_digit_char(self.b % 16));
        proof {
            assert(out@ =~= colour_hex(self));
        }
        chars_to_string(&out)
    }
}

impl core::convert::From<(u8, u8, u8)> for Colour {
    fn from(rgb: (u8, u8, u8)) -> (c: Colour) {
        Colour { r: rgb.0, g: rgb.1, b: rgb.2 }
    }
}

impl vstd::std_specs::convert::FromSpecImpl<(u8, u8, u8)> for Colour {
    open spec fn obeys_from_spec() -> bool {
        true
    }

    open spec fn from_spec(rgb: (u8, u8, u8)) -> Colour {
        Colour { r: rgb.0, g: rgb.1, b: rgb.2 }
    }
}

impl core::convert::From<[u8; 3]> for Colour {
    fn from(rgb: [u8; 3]) -> (c: Colour) {
        Colour { r: rgb[0], g: rgb[1], b: rgb[2] }
    }
}

impl vstd::std_specs::convert::FromSpecImpl<[u8; 3]> for Colour {
    open spec fn obeys_from_spec() -> bool {
        true
    }

    open spec fn from_spec(rgb: [u8; 3]) -> Colour {
        Colour { r: rgb@[0], g: rgb@[1], b: rgb@[2] }
    }
}


/// Whether the character is a hexadecimal digit, in either case.
pub open spec fn is_hex_digit(c: char) -> bool {
    (48 <= c as int <= 57) || (97 <= c as int <= 102) || (65 <= c as int <= 70)
}

/// The value of a hexadecimal digit; meaningful only for hex digits.
pub open spec fn hex_val(c: char) -> int {
    if 48 <= c as int <= 57 {
        c as int - 48
    } else if 97 <= c as int <= 102 {
        c as int - 87
    } else {
        c as int - 55
    }
}

/// A long hex code: `#` followed by exactly six hex digits.
pub open spec fn valid_long_hex(s: Seq<char>) -> bool {
    s.len() == 7 && s[0] == '#' && (forall|i: int| 1 <= i < 7 ==> is_hex_digit(#[trigger] s[i]))
}

/// A short hex code: `#` followed by exactly three hex digits.
pub open spec fn valid_short_hex(s: Seq<char>) -> bool {
    s.len() == 4 && s[0] == '#' && (forall|i: int| 1 <= i < 4 ==> is_hex_digit(#[trigger] s[i]))
}

/// The colour a long hex code names: two digits per channel.
pub open spec fn long_hex_colour(s: Seq<char>) -> Colour {
    Colour {
        r: (16 * hex_val(s[1]) + hex_val(s[2])) as u8,
        g: (16 * hex_val(s[3]) + hex_val(s[4])) as u8,
        b: (16 * hex_val(s[5]) + hex_val(s[6])) as u8,
    }
}

/// The colour a short hex code names: each digit doubled, so `#f00` is
/// `#ff0000`.
pub open spec fn short_hex_colour(s: Seq<char>) -> Colour {
    Colour {
        r: (17 * hex_val(s[1])) as u8,
        g: (17 * hex_val(s[2])) as u8,
        b: (17 * hex_val(s[3])) as u8,
    }
}

/// The value of one hexadecimal digit character, or nothing for any other
/// character.
fn hex_digit_val(c: char) -> (r: Option<u8>)
    ensures
        r is Some <==> is_hex_digit(c),
        r matches Some(v) ==> v as int == hex_val(c) && v <= 15,
{
    let u = c as u32;
    if 48 <= u && u <= 57 {
        Some((u - 48) as u8)
    } else if 97 <= u && u <= 102 {
        Some((u - 87) as u8)
    } else if 65 <= u && u <= 70 {
        Some((u - 55) as u8)
    } else {
        None
    }
}

impl Colour {
    /// Create a colour from a hex code.
    ///
    /// This function supports both long and short hex codes.  Alpha values
    /// are not supported.
    ///
    /// If the hex code is invalid, this function will return `None`.
    pub fn from_hex(hex: &str) -> (r: Option<Colour>)
        ensures
            valid_long_hex(hex@) ==> r == Some(long_hex_colour(hex@)),
            valid_short_hex(hex@) ==> r == Some(short_hex_colour(hex@)),
            !valid_long_hex(hex@) && !valid_short_hex(hex@) ==> r is None,
    {
        let n = hex.unicode_len();
        if n != 4 && n != 7 {
            return None;
        }
        if hex.get_char(0) != '#' {
            return None;
        }
        if n == 4 {
            let d1 = hex_digit_val(hex.get_char(1));
            let d2 = hex_digit_val(hex.get_char(2));
            let d3 = hex_digit_val(hex.get_char(3));
            match (d1, d2, d3) {
                (Some(a), Some(b), Some(c)) => {
                    proof {
                        assert forall|i: int| 1 <= i < 4 implies is_hex_digit(#[trigger] hex@[i]) by {
                            if i == 1 {
                            } else if i == 2 {
                            } else {
                            }
                        }
                    }
                    Some(Colour { r: 17 * a, g: 17 * b, b: 17 * c })
                },
                _ => None,
            }
        } else {
            let d1 = hex_digit_val(hex.get_char(1));
            let d2 = hex_digit_val(hex.get_char(2));
            let d3 = hex_digit_val(hex.get_char(3));
            let d4 = hex_digit_val(hex.get_char(4));
            let d5 = hex_digit_val(hex.get_char(5));
            let d6 = hex_digit_val(hex.get_char(6));
            match (d1, d2, d3, d4, d5, d6) {
                (Some(a1), Some(a2), Some(a3), Some(a4), Some(a5), Some(a6)) => {
                    proof {
                        assert forall|i: int| 1 <= i < 7 implies is_hex_digit(#[trigger] hex@[i]) by {
                            if i == 1 {
                            } else if i == 2 {
                            } else if i == 3 {
                            } else if i == 4 {
                            } else if i == 5 {
                            } else {
                            }
                        }
                    }
                    Some(
                        Colour {
                            r: 16 * a1 + a2,
                            g: 16 * a3 + a4,
                            b: 16 * a5 + a6,
                        },
                    )
                },
                _ => None,
            }
        }
    }
}


} // verus!
