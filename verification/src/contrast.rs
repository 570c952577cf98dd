//! Selection of a legible text color for a given background.
//!
//! Two fixed candidates are compared: a near-white and a near-black (neither
//! pure, so that one of them does not win every comparison by default). The
//! one with the larger WCAG 2.1 relative contrast ratio against the
//! background is chosen; a tie goes to the first candidate, the near-white.

use crate::color::{Rgb8, Swatch};
use palette::color_difference::Wcag21RelativeContrast;
use vstd::prelude::*;

verus! {

/// The near-white text candidate, the first of the two fixed candidates.
pub open spec fn spec_text_white() -> Rgb8 {
    Rgb8 { r: 245, g: 245, b: 245 }
}

/// The near-black text candidate, the second of the two fixed candidates.
pub open spec fn spec_text_black() -> Rgb8 {
    Rgb8 { r: 10, g: 10, b: 10 }
}

pub fn text_white() -> (c: Rgb8)
    ensures
        c == spec_text_white(),
{
    Rgb8 { r: 245, g: 245, b: 245 }
}

pub fn text_black() -> (c: Rgb8)
    ensures
        c == spec_text_black(),
{
    Rgb8 { r: 10, g: 10, b: 10 }
}

/// Whether `a` has at least as large a WCAG 2.1 relative contrast ratio
/// against the background `bg` as `b` has.
pub uninterp spec fn contrast_at_least(a: Rgb8, b: Rgb8, bg: Rgb8) -> bool;

/// Relies on palette's `Wcag21RelativeContrast::relative_contrast` for the
/// two ratios and on float-ord's total order of floating-point values for
/// the comparison; both depend on the three colors alone.
#[verifier::external_body]
fn contrast_ge(a: &Rgb8, b: &Rgb8, bg: &Rgb8) -> (r: bool)
    ensures
        r == contrast_at_least(*a, *b, *bg),
{
    let av: palette::Srgb = palette::Srgb::new(a.r, a.g, a.b).into_format();
    let bv: palette::Srgb = palette::Srgb::new(b.r, b.g, b.b).into_format();
    let gv: palette::Srgb = palette::Srgb::new(bg.r, bg.g, bg.b).into_format();
    float_ord::FloatOrd(av.relative_contrast(gv)) >= float_ord::FloatOrd(bv.relative_contrast(gv))
}

/// The text color selected for a background: the near-white candidate when
/// its contrast ratio is at least the near-black's, the near-black
/// otherwise.
pub open spec fn spec_pick_text_color(bg: Rgb8) -> Rgb8 {
    if contrast_at_least(spec_text_white(), spec_text_black(), bg) {
        spec_text_white()
    } else {
        spec_text_black()
    }
}

/// Picks whichever of the two fixed text candidates is more legible on the
/// given background, ties going to the near-white.
pub fn pick_text_color(bg: &Rgb8) -> (t: Rgb8)
    ensures
        t == spec_pick_text_color(*bg),
{
    let white = text_white();
    let black = text_black();
    if contrast_ge(&white, &black, bg) {
        white
    } else {
        black
    }
}

/// Pairs a background color with the text color selected for it.
pub fn swatch(color: &Rgb8) -> (s: Swatch)
    ensures
        s.color == *color,
        s.text == spec_pick_text_color(*color),
{
    Swatch { color: *color, text: pick_text_color(color) }
}

} // verus!
