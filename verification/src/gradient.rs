//! The gradient engine: evenly spaced interpolation between two endpoint
//! colors inside one chosen color model.

use crate::color::{Rgb8, Swatch};
use crate::contrast::{spec_pick_text_color, swatch};
use crate::mixing::{
    bake_viewing_parameters, is_default_viewing, mix_cam16_jch, mix_cam16_jmh, mix_cam16_jsh,
    mix_cam16_qch, mix_cam16_qmh, mix_cam16_qsh, mix_hsl, mix_hsluv, mix_hsv, mix_hwb, mix_lab,
    mix_lch, mix_lchuv, mix_lin_rgb, mix_luv, mix_okhsl, mix_okhsv, mix_okhwb, mix_oklab,
    mix_oklch, mix_rgb, mix_xyz, mix_yxy, mixed, ViewingParameters,
};
use crate::model::Model;
use vstd::prelude::*;

verus! {

/// The divisor of the interpolation fraction for a step count: one less
/// than the count, floored at one so that a single-step request never
/// divides by zero and yields its start color.
pub open spec fn spec_den(steps: u8) -> int {
    if steps >= 2 {
        steps - 1
    } else {
        1
    }
}

fn mix_plain(model: &Model, start: &Rgb8, end: &Rgb8, num: u8, den: u8) -> (r: Rgb8)
    requires
        !model.spec_is_appearance(),
        1 <= den,
        num <= den,
    ensures
        r == mixed(*model, *start, *end, num as int, den as int),
{
    match model {
        Model::Rgb => mix_rgb(start, end, num, den),
        Model::LinRgb => mix_lin_rgb(start, end, num, den),
        Model::Hsl => mix_hsl(start, end, num, den),
        Model::Okhsl => mix_okhsl(start, end, num, den),
        Model::Hsluv => mix_hsluv(start, end, num, den),
        Model::Hsv => mix_hsv(start, end, num, den),
        Model::Okhsv => mix_okhsv(start, end, num, den),
        Model::Hwb => mix_hwb(start, end, num, den),
        Model::Okhwb => mix_okhwb(start, end, num, den),
        Model::Lab => mix_lab(start, end, num, den),
        Model::Oklab => mix_oklab(start, end, num, den),
        Model::Lch => mix_lch(start, end, num, den),
        Model::Oklch => mix_oklch(start, end, num, den),
        Model::Lchuv => mix_lchuv(start, end, num, den),
        Model::Luv => mix_luv(start, end, num, den),
        Model::Xyz => mix_xyz(start, end, num, den),
        _ => mix_yxy(start, end, num, den),
    }
}

fn mix_appearance(
    model: &Model,
    vp: &ViewingParameters,
    start: &Rgb8,
    end: &Rgb8,
    num: u8,
    den: u8,
) -> (r: Rgb8)
    requires
        model.spec_is_appearance(),
        is_default_viewing(*vp),
        1 <= den,
        num <= den,
    ensures
        r == mixed(*model, *start, *end, num as int, den as int),
{
    match model {
        Model::Cam16Jch => mix_cam16_jch(vp, start, end, num, den),
        Model::Cam16Jmh => mix_cam16_jmh(vp, start, end, num, den),
        Model::Cam16Jsh => mix_cam16_jsh(vp, start, end, num, den),
        Model::Cam16Qch => mix_cam16_qch(vp, start, end, num, den),
        Model::Cam16Qmh => mix_cam16_qmh(vp, start, end, num, den),
        _ => mix_cam16_qsh(vp, start, end, num, den),
    }
}

/// Interpolates between two endpoint colors inside the given model, at the
/// fraction `num / den`, and returns the displayable result. Hue channels
/// travel the shorter arc; appearance-model variants derive their viewing
/// parameters from the fixed viewing conditions.
pub fn mix_in_model(model: &Model, start: &Rgb8, end: &Rgb8, num: u8, den: u8) -> (r: Rgb8)
    requires
        1 <= den,
        num <= den,
    ensures
        r == mixed(*model, *start, *end, num as int, den as int),
{
    if model.is_appearance() {
        let vp = bake_viewing_parameters();
        mix_appearance(model, &vp, start, end, num, den)
    } else {
        mix_plain(model, start, end, num, den)
    }
}

/// The gradient of exactly `steps` colors between the two endpoints,
/// evaluated inside the given model: element `i` is the interpolation at
/// the fraction `i / (steps - 1)`, so element 0 comes from the start color
/// and the last element from the end color. For the degenerate single-step
/// request the divisor is floored at one and the one element comes from the
/// start color. Appearance-model variants construct their viewing
/// parameters once and reuse them for every element.
pub fn gradient(model: &Model, start: &Rgb8, end: &Rgb8, steps: u8) -> (r: Vec<Rgb8>)
    requires
        steps >= 1,
    ensures
        r@.len() == steps as int,
        forall|i: int|
            0 <= i < steps as int ==> r@[i] == mixed(*model, *start, *end, i, spec_den(steps)),
{
    let den: u8 = if steps >= 2 {
        steps - 1
    } else {
        1
    };
    let mut out: Vec<Rgb8> = Vec::new();
    if model.is_appearance() {
        let vp = bake_viewing_parameters();
        let mut idx: u8 = 0;
        while idx < steps
            invariant
                model.spec_is_appearance(),
                is_default_viewing(vp),
                idx <= steps,
                1 <= den,
                den as int == spec_den(steps),
                steps as int <= den as int + 1,
                out@.len() == idx as int,
                forall|i: int|
                    0 <= i < idx as int ==> out@[i] == mixed(
                        *model,
                        *start,
                        *end,
                        i,
                        spec_den(steps),
                    ),
            decreases steps as int - idx as int,
        {
            let c = mix_appearance(model, &vp, start, end, idx, den);
            out.push(c);
            idx += 1;
        }
    } else {
        let mut idx: u8 = 0;
        while idx < steps
            invariant
                !model.spec_is_appearance(),
                idx <= steps,
                1 <= den,
                den as int == spec_den(steps),
                steps as int <= den as int + 1,
                out@.len() == idx as int,
                forall|i: int|
                    0 <= i < idx as int ==> out@[i] == mixed(
                        *model,
                        *start,
                        *end,
                        i,
                        spec_den(steps),
                    ),
            decreases steps as int - idx as int,
        {
            let c = mix_plain(model, start, end, idx, den);
            out.push(c);
            idx += 1;
        }
    }
    out
}

/// The gradient of exactly `steps` colors between the two endpoints in the
/// given model, each paired with the text color selected as more legible on
/// it.
pub fn gradient_swatches(model: &Model, start: &Rgb8, end: &Rgb8, steps: u8) -> (r: Vec<Swatch>)
    requires
        steps >= 1,
    ensures
        r@.len() == steps as int,
        forall|i: int|
            0 <= i < steps as int ==> {
                &&& r@[i].color == mixed(*model, *start, *end, i, spec_den(steps))
                &&& r@[i].text == spec_pick_text_color(
                    mixed(*model, *start, *end, i, spec_den(steps)),
                )
            },
{
    let colors = gradient(model, start, end, steps);
    let mut out: Vec<Swatch> = Vec::new();
    let mut idx: usize = 0;
    while idx < colors.len()
        invariant
            colors@.len() == steps as int,
            forall|i: int|
                0 <= i < steps as int ==> colors@[i] == mixed(
                    *model,
                    *start,
                    *end,
                    i,
                    spec_den(steps),
                ),
            idx <= colors@.len(),
            out@.len() == idx as int,
            forall|i: int|
                0 <= i < idx as int ==> {
                    &&& out@[i].color == colors@[i]
                    &&& out@[i].text == spec_pick_text_color(colors@[i])
                },
        decreases colors@.len() - idx as int,
    {
        let s = swatch(&colors[idx]);
        out.push(s);
        idx += 1;
    }
    proof {
        assert forall|i: int| 0 <= i < steps as int implies {
            &&& out@[i].color == mixed(*model, *start, *end, i, spec_den(steps))
            &&& out@[i].text == spec_pick_text_color(
                mixed(*model, *start, *end, i, spec_den(steps)),
            )
        } by {
            assert(out@[i].color == colors@[i]);
            assert(colors@[i] == mixed(*model, *start, *end, i, spec_den(steps)));
        }
    }
    out
}

} // verus!
