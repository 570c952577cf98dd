//! Per-model interpolation of two 8-bit sRGB endpoints, carried out by the
//! `palette` crate behind trusted wrappers.
//!
//! Every wrapper follows the same route: convert both endpoints from 8-bit
//! sRGB into the target model, interpolate at the fraction `num / den` with
//! palette's `Mix` (which takes the shorter arc on hue channels), and convert
//! the result back to 8-bit sRGB. The result is a pure function of the
//! endpoints and the fraction, named by the uninterpreted function [`mixed`].

use crate::color::Rgb8;
use crate::model::Model;
use palette::cam16::{Cam16FromUnclamped, Cam16IntoUnclamped};
use palette::IntoColor;
use palette::Mix;
use vstd::prelude::*;

verus! {

#[verifier::external_type_specification]
#[verifier::external_body]
pub struct ExTryFromSliceError(core::array::TryFromSliceError);

#[verifier::external_type_specification]
#[verifier::external_body]
#[verifier::reject_recursive_types(S)]
#[verifier::reject_recursive_types(T)]
pub struct ExRgb<S, T>(palette::rgb::Rgb<S, T>);

#[verifier::external_type_specification]
#[verifier::external_body]
#[verifier::reject_recursive_types(Wp)]
#[verifier::reject_recursive_types(T)]
pub struct ExXyz<Wp, T>(palette::Xyz<Wp, T>);

#[verifier::external_type_specification]
#[verifier::external_body]
pub struct ExSrgbEncoding(palette::encoding::Srgb);

#[verifier::external_type_specification]
#[verifier::external_body]
pub struct ExD65(palette::white_point::D65);

#[verifier::external_type_specification]
#[verifier::external_body]
#[verifier::reject_recursive_types(Wp)]
pub struct ExStaticWp<Wp>(palette::cam16::StaticWp<Wp>);

#[verifier::external_type_specification]
#[verifier::external_body]
#[verifier::reject_recursive_types(WpParam)]
#[verifier::reject_recursive_types(T)]
pub struct ExBakedParameters<WpParam, T>(palette::cam16::BakedParameters<WpParam, T>);

/// The pre-baked CAM16 viewing parameters: D65 white point and the fixed
/// adapting luminance, with the default surround for those conditions.
pub type ViewingParameters = palette::cam16::BakedParameters<
    palette::cam16::StaticWp<palette::white_point::D65>,
    <palette::Xyz as palette::Mix>::Scalar,
>;

/// Holds of the viewing parameters derived from the fixed viewing
/// conditions this library uses; every value [`bake_viewing_parameters`]
/// returns satisfies it.
pub uninterp spec fn is_default_viewing(vp: ViewingParameters) -> bool;

/// The color that palette computes when the two endpoints are taken into
/// the given model, interpolated at the fraction `num / den`, and taken
/// back to 8-bit sRGB. Each model variant selects one fixed palette
/// pipeline, so each variant's slice of this function names the result of
/// one outside computation; the appearance-model variants are understood
/// under the viewing parameters that [`bake_viewing_parameters`] yields.
pub uninterp spec fn mixed(model: Model, start: Rgb8, end: Rgb8, num: int, den: int) -> Rgb8;

/// Relies on palette's `Parameters::default_static_wp` and `bake`: both are
/// deterministic, so every call yields the same parameter value, here named
/// by `is_default_viewing`.
#[verifier::external_body]
pub(crate) fn bake_viewing_parameters() -> (vp: ViewingParameters)
    ensures
        is_default_viewing(vp),
{
    palette::cam16::Parameters::default_static_wp(40u8.into()).bake()
}

/// Relies on palette's `Rgb::into_format`: widens 8-bit sRGB channels into
/// floating-point channels over the same gamma-corrected scale.
#[verifier::external_body]
fn srgb_of(c: &Rgb8) -> palette::Srgb {
    palette::Srgb::new(c.r, c.g, c.b).into_format()
}

/// Relies on palette's `Rgb::into_format`: rounds floating-point sRGB
/// channels to the nearest 8-bit channel value.
#[verifier::external_body]
fn rgb8_of(c: palette::Srgb) -> Rgb8 {
    let out: palette::Srgb<u8> = c.into_format();
    Rgb8 { r: out.red, g: out.green, b: out.blue }
}

/// Relies on palette's conversion from sRGB to CIE XYZ, the entry point of
/// the CAM16 appearance model.
#[verifier::external_body]
fn xyz_of(c: &Rgb8) -> palette::Xyz {
    let f: palette::Srgb = palette::Srgb::new(c.r, c.g, c.b).into_format();
    f.into_color()
}

/// Relies on palette's `Mix` for sRGB and its conversion to 8-bit channels.
#[verifier::external_body]
pub(crate) fn mix_rgb(start: &Rgb8, end: &Rgb8, num: u8, den: u8) -> (r: Rgb8)
    requires
        1 <= den,
        num <= den,
    ensures
        r == mixed(Model::Rgb, *start, *end, num as int, den as int),
{
    let s: palette::Srgb = srgb_of(start);
    let e: palette::Srgb = srgb_of(end);
    let tn: <palette::Srgb as palette::Mix>::Scalar = num.into();
    let td: <palette::Srgb as palette::Mix>::Scalar = den.into();
    rgb8_of(s.mix(e, tn / td))
}

/// Relies on palette's `Cam16Jch` conversions and `Mix`: lightness and
/// chroma correlates under the viewing parameters, hue on the shorter arc.
#[verifier::external_body]
pub(crate) fn mix_cam16_jch(
    vp: &ViewingParameters,
    start: &Rgb8,
    end: &Rgb8,
    num: u8,
    den: u8,
) -> (r: Rgb8)
    requires
        is_default_viewing(*vp),
        1 <= den,
        num <= den,
    ensures
        r == mixed(Model::Cam16Jch, *start, *end, num as int, den as int),
{
    let s = palette::cam16::Cam16Jch::cam16_from_unclamped(xyz_of(start), *vp);
    let e = palette::cam16::Cam16Jch::cam16_from_unclamped(xyz_of(end), *vp);
    let tn: <palette::Xyz as palette::Mix>::Scalar = num.into();
    let td: <palette::Xyz as palette::Mix>::Scalar = den.into();
    let back: palette::Xyz = s.mix(e, tn / td).cam16_into_unclamped(*vp);
    rgb8_of(back.into_color())
}

/// Relies on palette's `LinSrgb` conversions and `Mix`: linear-light sRGB
/// channels, interpolated without gamma correction.
#[verifier::external_body]
pub(crate) fn mix_lin_rgb(start: &Rgb8, end: &Rgb8, num: u8, den: u8) -> (r: Rgb8)
    requires
        1 <= den,
        num <= den,
    ensures
        r == mixed(Model::LinRgb, *start, *end, num as int, den as int),
{
    let s: palette::LinSrgb = srgb_of(start).into_color();
    let e: palette::LinSrgb = srgb_of(end).into_color();
    let tn: <palette::LinSrgb as palette::Mix>::Scalar = num.into();
    let td: <palette::LinSrgb as palette::Mix>::Scalar = den.into();
    rgb8_of(s.mix(e, tn / td).into_color())
}

/// Relies on palette's `Hsl` conversions and `Mix`: hue, saturation and
/// lightness; hue on the shorter arc.
#[verifier::external_body]
pub(crate) fn mix_hsl(start: &Rgb8, end: &Rgb8, num: u8, den: u8) -> (r: Rgb8)
    requires
        1 <= den,
        num <= den,
    ensures
        r == mixed(Model::Hsl, *start, *end, num as int, den as int),
{
    let s: palette::Hsl = srgb_of(start).into_color();
    let e: palette::Hsl = srgb_of(end).into_color();
    let tn: <palette::Hsl as palette::Mix>::Scalar = num.into();
    let td: <palette::Hsl as palette::Mix>::Scalar = den.into();
    rgb8_of(s.mix(e, tn / td).into_color())
}

/// Relies on palette's `Okhsl` conversions and `Mix`: Okhsl hue, saturation
/// and lightness; hue on the shorter arc.
#[verifier::external_body]
pub(crate) fn mix_okhsl(start: &Rgb8, end: &Rgb8, num: u8, den: u8) -> (r: Rgb8)
    requires
        1 <= den,
        num <= den,
    ensures
        r == mixed(Model::Okhsl, *start, *end, num as int, den as int),
{
    let s: palette::Okhsl = srgb_of(start).into_color();
    let e: palette::Okhsl = srgb_of(end).into_color();
    let tn: <palette::Okhsl as palette::Mix>::Scalar = num.into();
    let td: <palette::Okhsl as palette::Mix>::Scalar = den.into();
    rgb8_of(s.mix(e, tn / td).into_color())
}

/// Relies on palette's `Hsluv` conversions and `Mix`: HSLuv hue, saturation
/// and lightness; hue on the shorter arc.
#[verifier::external_body]
pub(crate) fn mix_hsluv(start: &Rgb8, end: &Rgb8, num: u8, den: u8) -> (r: Rgb8)
    requires
        1 <= den,
        num <= den,
    ensures
        r == mixed(Model::Hsluv, *start, *end, num as int, den as int),
{
    let s: palette::Hsluv = srgb_of(start).into_color();
    let e: palette::Hsluv = srgb_of(end).into_color();
    let tn: <palette::Hsluv as palette::Mix>::Scalar = num.into();
    let td: <palette::Hsluv as palette::Mix>::Scalar = den.into();
    rgb8_of(s.mix(e, tn / td).into_color())
}

/// Relies on palette's `Hsv` conversions and `Mix`: hue, saturation and
/// value; hue on the shorter arc.
#[verifier::external_body]
pub(crate) fn mix_hsv(start: &Rgb8, end: &Rgb8, num: u8, den: u8) -> (r: Rgb8)
    requires
        1 <= den,
        num <= den,
    ensures
        r == mixed(Model::Hsv, *start, *end, num as int, den as int),
{
    let s: palette::Hsv = srgb_of(start).into_color();
    let e: palette::Hsv = srgb_of(end).into_color();
    let tn: <palette::Hsv as palette::Mix>::Scalar = num.into();
    let td: <palette::Hsv as palette::Mix>::Scalar = den.into();
    rgb8_of(s.mix(e, tn / td).into_color())
}

/// Relies on palette's `Okhsv` conversions and `Mix`: Okhsv hue, saturation
/// and value; hue on the shorter arc.
#[verifier::external_body]
pub(crate) fn mix_okhsv(start: &Rgb8, end: &Rgb8, num: u8, den: u8) -> (r: Rgb8)
    requires
        1 <= den,
        num <= den,
    ensures
        r == mixed(Model::Okhsv, *start, *end, num as int, den as int),
{
    let s: palette::Okhsv = srgb_of(start).into_color();
    let e: palette::Okhsv = srgb_of(end).into_color();
    let tn: <palette::Okhsv as palette::Mix>::Scalar = num.into();
    let td: <palette::Okhsv as palette::Mix>::Scalar = den.into();
    rgb8_of(s.mix(e, tn / td).into_color())
}

/// Relies on palette's `Hwb` conversions and `Mix`: hue, whiteness and
/// blackness; hue on the shorter arc.
#[verifier::external_body]
pub(crate) fn mix_hwb(start: &Rgb8, end: &Rgb8, num: u8, den: u8) -> (r: Rgb8)
    requires
        1 <= den,
        num <= den,
    ensures
        r == mixed(Model::Hwb, *start, *end, num as int, den as int),
{
    let s: palette::Hwb = srgb_of(start).into_color();
    let e: palette::Hwb = srgb_of(end).into_color();
    let tn: <palette::Hwb as palette::Mix>::Scalar = num.into();
    let td: <palette::Hwb as palette::Mix>::Scalar = den.into();
    rgb8_of(s.mix(e, tn / td).into_color())
}

/// Relies on palette's `Okhwb` conversions and `Mix`: Okhwb hue, whiteness
/// and blackness; hue on the shorter arc.
#[verifier::external_body]
pub(crate) fn mix_okhwb(start: &Rgb8, end: &Rgb8, num: u8, den: u8) -> (r: Rgb8)
    requires
        1 <= den,
        num <= den,
    ensures
        r == mixed(Model::Okhwb, *start, *end, num as int, den as int),
{
    let s: palette::Okhwb = srgb_of(start).into_color();
    let e: palette::Okhwb = srgb_of(end).into_color();
    let tn: <palette::Okhwb as palette::Mix>::Scalar = num.into();
    let td: <palette::Okhwb as palette::Mix>::Scalar = den.into();
    rgb8_of(s.mix(e, tn / td).into_color())
}

/// Relies on palette's `Lab` conversions and `Mix`: CIE L*a*b* rectangular
/// coordinates.
#[verifier::external_body]
pub(crate) fn mix_lab(start: &Rgb8, end: &Rgb8, num: u8, den: u8) -> (r: Rgb8)
    requires
        1 <= den,
        num <= den,
    ensures
        r == mixed(Model::Lab, *start, *end, num as int, den as int),
{
    let s: palette::Lab = srgb_of(start).into_color();
    let e: palette::Lab = srgb_of(end).into_color();
    let tn: <palette::Lab as palette::Mix>::Scalar = num.into();
    let td: <palette::Lab as palette::Mix>::Scalar = den.into();
    rgb8_of(s.mix(e, tn / td).into_color())
}

/// Relies on palette's `Oklab` conversions and `Mix`: Oklab rectangular
/// coordinates.
#[verifier::external_body]
pub(crate) fn mix_oklab(start: &Rgb8, end: &Rgb8, num: u8, den: u8) -> (r: Rgb8)
    requires
        1 <= den,
        num <= den,
    ensures
        r == mixed(Model::Oklab, *start, *end, num as int, den as int),
{
    let s: palette::Oklab = srgb_of(start).into_color();
    let e: palette::Oklab = srgb_of(end).into_color();
    let tn: <palette::Oklab as palette::Mix>::Scalar = num.into();
    let td: <palette::Oklab as palette::Mix>::Scalar = den.into();
    rgb8_of(s.mix(e, tn / td).into_color())
}

/// Relies on palette's `Lch` conversions and `Mix`: CIE L*C*h polar
/// coordinates; hue on the shorter arc.
#[verifier::external_body]
pub(crate) fn mix_lch(start: &Rgb8, end: &Rgb8, num: u8, den: u8) -> (r: Rgb8)
    requires
        1 <= den,
        num <= den,
    ensures
        r == mixed(Model::Lch, *start, *end, num as int, den as int),
{
    let s: palette::Lch = srgb_of(start).into_color();
    let e: palette::Lch = srgb_of(end).into_color();
    let tn: <palette::Lch as palette::Mix>::Scalar = num.into();
    let td: <palette::Lch as palette::Mix>::Scalar = den.into();
    rgb8_of(s.mix(e, tn / td).into_color())
}

/// Relies on palette's `Oklch` conversions and `Mix`: Oklch polar
/// coordinates; hue on the shorter arc.
#[verifier::external_body]
pub(crate) fn mix_oklch(start: &Rgb8, end: &Rgb8, num: u8, den: u8) -> (r: Rgb8)
    requires
        1 <= den,
        num <= den,
    ensures
        r == mixed(Model::Oklch, *start, *end, num as int, den as int),
{
    let s: palette::Oklch = srgb_of(start).into_color();
    let e: palette::Oklch = srgb_of(end).into_color();
    let tn: <palette::Oklch as palette::Mix>::Scalar = num.into();
    let td: <palette::Oklch as palette::Mix>::Scalar = den.into();
    rgb8_of(s.mix(e, tn / td).into_color())
}

/// Relies on palette's `Lchuv` conversions and `Mix`: CIE L*C*uv h polar
/// coordinates; hue on the shorter arc.
#[verifier::external_body]
pub(crate) fn mix_lchuv(start: &Rgb8, end: &Rgb8, num: u8, den: u8) -> (r: Rgb8)
    requires
        1 <= den,
        num <= den,
    ensures
        r == mixed(Model::Lchuv, *start, *end, num as int, den as int),
{
    let s: palette::Lchuv = srgb_of(start).into_color();
    let e: palette::Lchuv = srgb_of(end).into_color();
    let tn: <palette::Lchuv as palette::Mix>::Scalar = num.into();
    let td: <palette::Lchuv as palette::Mix>::Scalar = den.into();
    rgb8_of(s.mix(e, tn / td).into_color())
}

/// Relies on palette's `Luv` conversions and `Mix`: CIE L*u*v* rectangular
/// coordinates.
#[verifier::external_body]
pub(crate) fn mix_luv(start: &Rgb8, end: &Rgb8, num: u8, den: u8) -> (r: Rgb8)
    requires
        1 <= den,
        num <= den,
    ensures
        r == mixed(Model::Luv, *start, *end, num as int, den as int),
{
    let s: palette::Luv = srgb_of(start).into_color();
    let e: palette::Luv = srgb_of(end).into_color();
    let tn: <palette::Luv as palette::Mix>::Scalar = num.into();
    let td: <palette::Luv as palette::Mix>::Scalar = den.into();
    rgb8_of(s.mix(e, tn / td).into_color())
}

/// Relies on palette's `Xyz` conversions and `Mix`: CIE XYZ tristimulus values.
#[verifier::external_body]
pub(crate) fn mix_xyz(start: &Rgb8, end: &Rgb8, num: u8, den: u8) -> (r: Rgb8)
    requires
        1 <= den,
        num <= den,
    ensures
        r == mixed(Model::Xyz, *start, *end, num as int, den as int),
{
    let s: palette::Xyz = srgb_of(start).into_color();
    let e: palette::Xyz = srgb_of(end).into_color();
    let tn: <palette::Xyz as palette::Mix>::Scalar = num.into();
    let td: <palette::Xyz as palette::Mix>::Scalar = den.into();
    rgb8_of(s.mix(e, tn / td).into_color())
}

/// Relies on palette's `Yxy` conversions and `Mix`: CIE Yxy luminance and
/// chromaticity coordinates.
#[verifier::external_body]
pub(crate) fn mix_yxy(start: &Rgb8, end: &Rgb8, num: u8, den: u8) -> (r: Rgb8)
    requires
        1 <= den,
        num <= den,
    ensures
        r == mixed(Model::Yxy, *start, *end, num as int, den as int),
{
    let s: palette::Yxy = srgb_of(start).into_color();
    let e: palette::Yxy = srgb_of(end).into_color();
    let tn: <palette::Yxy as palette::Mix>::Scalar = num.into();
    let td: <palette::Yxy as palette::Mix>::Scalar = den.into();
    rgb8_of(s.mix(e, tn / td).into_color())
}

/// Relies on palette's `Cam16Jmh` conversions and `Mix`: lightness,
/// colorfulness and hue correlates under the viewing parameters, hue on the
/// shorter arc.
#[verifier::external_body]
pub(crate) fn mix_cam16_jmh(
    vp: &ViewingParameters,
    start: &Rgb8,
    end: &Rgb8,
    num: u8,
    den: u8,
) -> (r: Rgb8)
    requires
        is_default_viewing(*vp),
        1 <= den,
        num <= den,
    ensures
        r == mixed(Model::Cam16Jmh, *start, *end, num as int, den as int),
{
    let s = palette::cam16::Cam16Jmh::cam16_from_unclamped(xyz_of(start), *vp);
    let e = palette::cam16::Cam16Jmh::cam16_from_unclamped(xyz_of(end), *vp);
    let tn: <palette::Xyz as palette::Mix>::Scalar = num.into();
    let td: <palette::Xyz as palette::Mix>::Scalar = den.into();
    let back: palette::Xyz = s.mix(e, tn / td).cam16_into_unclamped(*vp);
    rgb8_of(back.into_color())
}

/// Relies on palette's `Cam16Jsh` conversions and `Mix`: lightness,
/// saturation and hue correlates under the viewing parameters, hue on the
/// shorter arc.
#[verifier::external_body]
pub(crate) fn mix_cam16_jsh(
    vp: &ViewingParameters,
    start: &Rgb8,
    end: &Rgb8,
    num: u8,
    den: u8,
) -> (r: Rgb8)
    requires
        is_default_viewing(*vp),
        1 <= den,
        num <= den,
    ensures
        r == mixed(Model::Cam16Jsh, *start, *end, num as int, den as int),
{
    let s = palette::cam16::Cam16Jsh::cam16_from_unclamped(xyz_of(start), *vp);
    let e = palette::cam16::Cam16Jsh::cam16_from_unclamped(xyz_of(end), *vp);
    let tn: <palette::Xyz as palette::Mix>::Scalar = num.into();
    let td: <palette::Xyz as palette::Mix>::Scalar = den.into();
    let back: palette::Xyz = s.mix(e, tn / td).cam16_into_unclamped(*vp);
    rgb8_of(back.into_color())
}

/// Relies on palette's `Cam16Qch` conversions and `Mix`: brightness, chroma
/// and hue correlates under the viewing parameters, hue on the shorter arc.
#[verifier::external_body]
pub(crate) fn mix_cam16_qch(
    vp: &ViewingParameters,
    start: &Rgb8,
    end: &Rgb8,
    num: u8,
    den: u8,
) -> (r: Rgb8)
    requires
        is_default_viewing(*vp),
        1 <= den,
        num <= den,
    ensures
        r == mixed(Model::Cam16Qch, *start, *end, num as int, den as int),
{
    let s = palette::cam16::Cam16Qch::cam16_from_unclamped(xyz_of(start), *vp);
    let e = palette::cam16::Cam16Qch::cam16_from_unclamped(xyz_of(end), *vp);
    let tn: <palette::Xyz as palette::Mix>::Scalar = num.into();
    let td: <palette::Xyz as palette::Mix>::Scalar = den.into();
    let back: palette::Xyz = s.mix(e, tn / td).cam16_into_unclamped(*vp);
    rgb8_of(back.into_color())
}

/// Relies on palette's `Cam16Qmh` conversions and `Mix`: brightness,
/// colorfulness and hue correlates under the viewing parameters, hue on the
/// shorter arc.
#[verifier::external_body]
pub(crate) fn mix_cam16_qmh(
    vp: &ViewingParameters,
    start: &Rgb8,
    end: &Rgb8,
    num: u8,
    den: u8,
) -> (r: Rgb8)
    requires
        is_default_viewing(*vp),
        1 <= den,
        num <= den,
    ensures
        r == mixed(Model::Cam16Qmh, *start, *end, num as int, den as int),
{
    let s = palette::cam16::Cam16Qmh::cam16_from_unclamped(xyz_of(start), *vp);
    let e = palette::cam16::Cam16Qmh::cam16_from_unclamped(xyz_of(end), *vp);
    let tn: <palette::Xyz as palette::Mix>::Scalar = num.into();
    let td: <palette::Xyz as palette::Mix>::Scalar = den.into();
    let back: palette::Xyz = s.mix(e, tn / td).cam16_into_unclamped(*vp);
    rgb8_of(back.into_color())
}

/// Relies on palette's `Cam16Qsh` conversions and `Mix`: brightness,
/// saturation and hue correlates under the viewing parameters, hue on the
/// shorter arc.
#[verifier::external_body]
pub(crate) fn mix_cam16_qsh(
    vp: &ViewingParameters,
    start: &Rgb8,
    end: &Rgb8,
    num: u8,
    den: u8,
) -> (r: Rgb8)
    requires
        is_default_viewing(*vp),
        1 <= den,
        num <= den,
    ensures
        r == mixed(Model::Cam16Qsh, *start, *end, num as int, den as int),
{
    let s = palette::cam16::Cam16Qsh::cam16_from_unclamped(xyz_of(start), *vp);
    let e = palette::cam16::Cam16Qsh::cam16_from_unclamped(xyz_of(end), *vp);
    let tn: <palette::Xyz as palette::Mix>::Scalar = num.into();
    let td: <palette::Xyz as palette::Mix>::Scalar = den.into();
    let back: palette::Xyz = s.mix(e, tn / td).cam16_into_unclamped(*vp);
    rgb8_of(back.into_color())
}

} // verus!
