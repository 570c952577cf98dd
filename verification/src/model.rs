//! The closed set of color models a gradient can be evaluated in.

use vstd::prelude::*;

verus! {

/// One color representation that the gradient engine can interpolate in.
///
/// The first seventeen variants are ordinary color models; the `Cam16*`
/// variants are the six correlate combinations of the CIE CAM16 appearance
/// model (lightness or brightness x chroma, colorfulness or saturation x
/// hue), which additionally depend on a set of viewing parameters.
#[derive(Clone, Copy, PartialEq, Eq, Structural, Debug)]
pub enum Model {
    Rgb,
    LinRgb,
    Hsl,
    Okhsl,
    Hsluv,
    Hsv,
    Okhsv,
    Hwb,
    Okhwb,
    Lab,
    Oklab,
    Lch,
    Oklch,
    Lchuv,
    Luv,
    Xyz,
    Yxy,
    Cam16Jch,
    Cam16Jmh,
    Cam16Jsh,
    Cam16Qch,
    Cam16Qmh,
    Cam16Qsh,
}

impl Model {
    /// Whether this variant belongs to the CAM16 appearance model and so
    /// needs viewing parameters for its conversions.
    pub open spec fn spec_is_appearance(self) -> bool {
        match self {
            Model::Cam16Jch => true,
            Model::Cam16Jmh => true,
            Model::Cam16Jsh => true,
            Model::Cam16Qch => true,
            Model::Cam16Qmh => true,
            Model::Cam16Qsh => true,
            _ => false,
        }
    }

    pub fn is_appearance(&self) -> (r: bool)
        ensures
            r == self.spec_is_appearance(),
    {
        match self {
            Model::Cam16Jch => true,
            Model::Cam16Jmh => true,
            Model::Cam16Jsh => true,
            Model::Cam16Qch => true,
            Model::Cam16Qmh => true,
            Model::Cam16Qsh => true,
            _ => false,
        }
    }

    /// Which of the model's three components, if any, is an angular hue in
    /// degrees on a [0,360) cycle. Interpolation travels the shorter arc on
    /// that component.
    pub open spec fn spec_hue_component(self) -> Option<u8> {
        match self {
            Model::Hsl => Some(0u8),
            Model::Okhsl => Some(0u8),
            Model::Hsluv => Some(0u8),
            Model::Hsv => Some(0u8),
            Model::Okhsv => Some(0u8),
            Model::Hwb => Some(0u8),
            Model::Okhwb => Some(0u8),
            Model::Lch => Some(2u8),
            Model::Oklch => Some(2u8),
            Model::Lchuv => Some(2u8),
            Model::Cam16Jch => Some(2u8),
            Model::Cam16Jmh => Some(2u8),
            Model::Cam16Jsh => Some(2u8),
            Model::Cam16Qch => Some(2u8),
            Model::Cam16Qmh => Some(2u8),
            Model::Cam16Qsh => Some(2u8),
            _ => None,
        }
    }

    pub fn hue_component(&self) -> (r: Option<u8>)
        ensures
            r == self.spec_hue_component(),
    {
        match self {
            Model::Hsl => Some(0u8),
            Model::Okhsl => Some(0u8),
            Model::Hsluv => Some(0u8),
            Model::Hsv => Some(0u8),
            Model::Okhsv => Some(0u8),
            Model::Hwb => Some(0u8),
            Model::Okhwb => Some(0u8),
            Model::Lch => Some(2u8),
            Model::Oklch => Some(2u8),
            Model::Lchuv => Some(2u8),
            Model::Cam16Jch => Some(2u8),
            Model::Cam16Jmh => Some(2u8),
            Model::Cam16Jsh => Some(2u8),
            Model::Cam16Qch => Some(2u8),
            Model::Cam16Qmh => Some(2u8),
            Model::Cam16Qsh => Some(2u8),
            _ => None,
        }
    }

    /// The display name of this model.
    pub open spec fn spec_name(self) -> Seq<char> {
        match self {
            Model::Rgb => "rgb"@,
            Model::LinRgb => "lin. srgb"@,
            Model::Hsl => "hsl"@,
            Model::Okhsl => "okhsl"@,
            Model::Hsluv => "hsluv"@,
            Model::Hsv => "hsv"@,
            Model::Okhsv => "okhsv"@,
            Model::Hwb => "hwb"@,
            Model::Okhwb => "okhwb"@,
            Model::Lab => "lab"@,
            Model::Oklab => "oklab"@,
            Model::Lch => "lch"@,
            Model::Oklch => "oklch"@,
            Model::Lchuv => "lchuv"@,
            Model::Luv => "luv"@,
            Model::Xyz => "xyz"@,
            Model::Yxy => "yxy"@,
            Model::Cam16Jch => "Cam16Jch"@,
            Model::Cam16Jmh => "Cam16Jmh"@,
            Model::Cam16Jsh => "Cam16Jsh"@,
            Model::Cam16Qch => "Cam16Qch"@,
            Model::Cam16Qmh => "Cam16Qmh"@,
            Model::Cam16Qsh => "Cam16Qsh"@,
        }
    }

    pub fn name(&self) -> (r: &'static str)
        ensures
            r@ == self.spec_name(),
    {
        match self {
            Model::Rgb => "rgb",
            Model::LinRgb => "lin. srgb",
            Model::Hsl => "hsl",
            Model::Okhsl => "okhsl",
            Model::Hsluv => "hsluv",
            Model::Hsv => "hsv",
            Model::Okhsv => "okhsv",
            Model::Hwb => "hwb",
            Model::Okhwb => "okhwb",
            Model::Lab => "lab",
            Model::Oklab => "oklab",
            Model::Lch => "lch",
            Model::Oklch => "oklch",
            Model::Lchuv => "lchuv",
            Model::Luv => "luv",
            Model::Xyz => "xyz",
            Model::Yxy => "yxy",
            Model::Cam16Jch => "Cam16Jch",
            Model::Cam16Jmh => "Cam16Jmh",
            Model::Cam16Jsh => "Cam16Jsh",
            Model::Cam16Qch => "Cam16Qch",
            Model::Cam16Qmh => "Cam16Qmh",
            Model::Cam16Qsh => "Cam16Qsh",
        }
    }

    /// The documentation page describing this model's representation.
    pub fn doc_url(&self) -> (r: &'static str) {
        match self {
            Model::Rgb => "https://docs.rs/palette/0.7.7/palette/type.Srgb.html",
            Model::LinRgb => "https://docs.rs/palette/0.7.7/palette/type.LinSrgb.html",
            Model::Hsl => "https://docs.rs/palette/0.7.7/palette/struct.Hsl.html",
            Model::Okhsl => "https://docs.rs/palette/0.7.7/palette/struct.Okhsl.html",
            Model::Hsluv => "https://docs.rs/palette/0.7.7/palette/struct.Hsluv.html",
            Model::Hsv => "https://docs.rs/palette/0.7.7/palette/struct.Hsv.html",
            Model::Okhsv => "https://docs.rs/palette/0.7.7/palette/struct.Okhsv.html",
            Model::Hwb => "https://docs.rs/palette/0.7.7/palette/struct.Hwb.html",
            Model::Okhwb => "https://docs.rs/palette/0.7.7/palette/struct.Okhwb.html",
            Model::Lab => "https://docs.rs/palette/0.7.7/palette/struct.Lab.html",
            Model::Oklab => "https://docs.rs/palette/0.7.7/palette/struct.Oklab.html",
            Model::Lch => "https://docs.rs/palette/0.7.7/palette/struct.Lch.html",
            Model::Oklch => "https://docs.rs/palette/0.7.7/palette/struct.Oklch.html",
            Model::Lchuv => "https://docs.rs/palette/0.7.7/palette/struct.Lchuv.html",
            Model::Luv => "https://docs.rs/palette/0.7.7/palette/struct.Luv.html",
            Model::Xyz => "https://docs.rs/palette/0.7.7/palette/struct.Xyz.html",
            Model::Yxy => "https://docs.rs/palette/0.7.7/palette/struct.Yxy.html",
            Model::Cam16Jch => "https://docs.rs/palette/0.7.7/palette/cam16/struct.Cam16Jch.html",
            Model::Cam16Jmh => "https://docs.rs/palette/0.7.7/palette/cam16/struct.Cam16Jmh.html",
            Model::Cam16Jsh => "https://docs.rs/palette/0.7.7/palette/cam16/struct.Cam16Jsh.html",
            Model::Cam16Qch => "https://docs.rs/palette/0.7.7/palette/cam16/struct.Cam16Qch.html",
            Model::Cam16Qmh => "https://docs.rs/palette/0.7.7/palette/cam16/struct.Cam16Qmh.html",
            Model::Cam16Qsh => "https://docs.rs/palette/0.7.7/palette/cam16/struct.Cam16Qsh.html",
        }
    }

    /// Every supported model, in display order.
    pub open spec fn spec_all() -> Seq<Model> {
        seq![
            Model::Rgb,
            Model::LinRgb,
            Model::Hsl,
            Model::Okhsl,
            Model::Hsluv,
            Model::Hsv,
            Model::Okhsv,
            Model::Hwb,
            Model::Okhwb,
            Model::Lab,
            Model::Oklab,
            Model::Lch,
            Model::Oklch,
            Model::Lchuv,
            Model::Luv,
            Model::Xyz,
            Model::Yxy,
            Model::Cam16Jch,
            Model::Cam16Jmh,
            Model::Cam16Jsh,
            Model::Cam16Qch,
            Model::Cam16Qmh,
            Model::Cam16Qsh,
        ]
    }

    pub fn all() -> (r: Vec<Model>)
        ensures
            r@ == Model::spec_all(),
    {
        let r: Vec<Model> = vec![
            Model::Rgb,
            Model::LinRgb,
            Model::Hsl,
            Model::Okhsl,
            Model::Hsluv,
            Model::Hsv,
            Model::Okhsv,
            Model::Hwb,
            Model::Okhwb,
            Model::Lab,
            Model::Oklab,
            Model::Lch,
            Model::Oklch,
            Model::Lchuv,
            Model::Luv,
            Model::Xyz,
            Model::Yxy,
            Model::Cam16Jch,
            Model::Cam16Jmh,
            Model::Cam16Jsh,
            Model::Cam16Qch,
            Model::Cam16Qmh,
            Model::Cam16Qsh,
        ];
        proof {
            assert(r@ =~= Model::spec_all());
        }
        r
    }
}

} // verus!
