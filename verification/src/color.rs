//! Displayable colors and their hexadecimal display codes.

use vstd::prelude::*;

verus! {

/// A displayable gamma-corrected RGB color with 8 bits per channel.
#[derive(Clone, Copy, PartialEq, Eq, Structural, Debug)]
pub struct Rgb8 {
    pub r: u8,
    pub g: u8,
    pub b: u8,
}

impl Rgb8 {
    pub fn new(r: u8, g: u8, b: u8) -> (c: Rgb8)
        ensures
            c == (Rgb8 { r, g, b }),
    {
        Rgb8 { r, g, b }
    }
}

/// One gradient color paired with the text color selected as more legible
/// on top of it.
#[derive(Clone, Copy, PartialEq, Eq, Structural, Debug)]
pub struct Swatch {
    pub color: Rgb8,
    pub text: Rgb8,
}

/// The ASCII code of the lowercase hexadecimal digit for `n`.
pub open spec fn spec_hex_digit(n: u8) -> u8
    recommends
        n < 16,
{
    if n < 10 {
        (n + 48) as u8
    } else {
        (n + 87) as u8
    }
}

/// The ASCII bytes of `#rrggbb` for a color, lowercase digits.
pub open spec fn spec_hex_code(c: Rgb8) -> Seq<u8> {
    seq![
        35u8,
        spec_hex_digit((c.r / 16) as u8),
        spec_hex_digit((c.r % 16) as u8),
        spec_hex_digit((c.g / 16) as u8),
        spec_hex_digit((c.g % 16) as u8),
        spec_hex_digit((c.b / 16) as u8),
        spec_hex_digit((c.b % 16) as u8),
    ]
}

fn hex_digit(n: u8) -> (d: u8)
    requires
        n < 16,
    ensures
        d == spec_hex_digit(n),
{
    if n < 10 {
        n + 48
    } else {
        n + 87
    }
}

/// The `#rrggbb` code of a color, as ASCII bytes with lowercase digits.
pub fn hex_code(c: &Rgb8) -> (s: Vec<u8>)
    ensures
        s@ == spec_hex_code(*c),
{
    let s: Vec<u8> = vec![
        35u8,
        hex_digit(c.r / 16),
        hex_digit(c.r % 16),
        hex_digit(c.g / 16),
        hex_digit(c.g % 16),
        hex_digit(c.b / 16),
        hex_digit(c.b % 16),
    ];
    proof {
        assert(s@ =~= spec_hex_code(*c));
    }
    s
}

} // verus!
