use colormix::{gradient, gradient_swatches, mix_in_model, pick_text_color, Model, Rgb8};

fn near(a: &Rgb8, b: &Rgb8) -> bool {
    (a.r as i16 - b.r as i16).abs() <= 1
        && (a.g as i16 - b.g as i16).abs() <= 1
        && (a.b as i16 - b.b as i16).abs() <= 1
}

#[test]
fn length_matches_steps() {
    let start = Rgb8::new(0x00, 0x33, 0x66);
    let end = Rgb8::new(0x99, 0xcc, 0x00);
    for model in Model::all() {
        for steps in [1u8, 2, 3, 12, 50] {
            assert_eq!(gradient(&model, &start, &end, steps).len(), steps as usize);
        }
    }
}

#[test]
fn endpoints_round_trip_within_one() {
    let samples = [
        Rgb8::new(0x00, 0x33, 0x66),
        Rgb8::new(0x99, 0xcc, 0x00),
        Rgb8::new(0xf0, 0x30, 0x10),
        Rgb8::new(0x00, 0xc0, 0x20),
        Rgb8::new(0x20, 0x10, 0x80),
        Rgb8::new(0xe8, 0xf8, 0x60),
        Rgb8::new(0x10, 0x04, 0x08),
        Rgb8::new(0xf3, 0xf7, 0xff),
        Rgb8::new(0x00, 0x00, 0x00),
        Rgb8::new(0xff, 0xff, 0xff),
    ];
    for model in Model::all() {
        for start in &samples {
            for end in &samples {
                let g = gradient(&model, start, end, 4);
                assert!(
                    near(&g[0], start),
                    "start not reproduced in {}: {:?} vs {:?}",
                    model.name(),
                    g[0],
                    start
                );
                assert!(
                    near(&g[3], end),
                    "end not reproduced in {}: {:?} vs {:?}",
                    model.name(),
                    g[3],
                    end
                );
            }
        }
    }
}

#[test]
fn srgb_endpoints_exact() {
    let start = Rgb8::new(0x00, 0x33, 0x66);
    let end = Rgb8::new(0x99, 0xcc, 0x00);
    let g = gradient(&Model::Rgb, &start, &end, 5);
    assert_eq!(g[0], start);
    assert_eq!(g[4], end);
}

#[test]
fn single_step_yields_start() {
    let start = Rgb8::new(0x12, 0x34, 0x56);
    let end = Rgb8::new(0x99, 0xcc, 0x00);
    let g = gradient(&Model::Rgb, &start, &end, 1);
    assert_eq!(g.len(), 1);
    assert_eq!(g[0], start);
    for model in Model::all() {
        let g = gradient(&model, &start, &end, 1);
        assert_eq!(g.len(), 1);
        assert!(near(&g[0], &start));
    }
}

#[test]
fn srgb_midpoint_is_channel_mean() {
    let start = Rgb8::new(0x00, 0x33, 0x66);
    let end = Rgb8::new(0x99, 0xcc, 0x00);
    let g = gradient(&Model::Rgb, &start, &end, 3);
    assert_eq!(g[0], start);
    // Each midpoint channel is the arithmetic mean of the endpoint
    // channels, up to one unit of 8-bit rounding: (0x00 + 0x99) / 2 = 76.5,
    // (0x33 + 0xcc) / 2 = 127.5 and (0x66 + 0x00) / 2 = 51. The means that
    // land on .5 sit within one of the result.
    assert!(near(&g[1], &Rgb8::new(77, 128, 51)));
    assert_eq!(g[1], Rgb8::new(76, 128, 51));
    assert_eq!(g[2], end);
}

#[test]
fn hue_interpolation_takes_shorter_arc() {
    // Endpoints on either side of the 360/0 hue seam: hues close to 350
    // and 10 degrees at full saturation and half lightness. Their midpoint
    // must cross the seam and land at a hue close to 0 (red), not at 180
    // (cyan).
    let start = Rgb8::new(255, 0, 43);
    let end = Rgb8::new(255, 43, 0);
    let mid = mix_in_model(&Model::Hsl, &start, &end, 1, 2);
    assert_eq!(mid.r, 255);
    assert!(mid.g <= 1);
    assert!(mid.b <= 1);
}

#[test]
fn equal_endpoints_stay_put() {
    let c = Rgb8::new(0x99, 0xcc, 0x00);
    for model in Model::all() {
        for step in gradient(&model, &c, &c, 5) {
            assert!(near(&step, &c), "drifted in {}: {:?}", model.name(), step);
        }
    }
}

#[test]
fn gradient_is_deterministic() {
    let start = Rgb8::new(0x10, 0x04, 0x08);
    let end = Rgb8::new(0xf3, 0xf7, 0xff);
    for model in Model::all() {
        let a = gradient(&model, &start, &end, 7);
        let b = gradient(&model, &start, &end, 7);
        assert_eq!(a, b);
    }
}

#[test]
fn every_model_moves_the_midpoint() {
    let start = Rgb8::new(0, 0, 0);
    let end = Rgb8::new(255, 255, 255);
    for model in Model::all() {
        let g = gradient(&model, &start, &end, 3);
        assert_ne!(g[1], start, "midpoint stuck at start in {}", model.name());
        assert_ne!(g[1], end, "midpoint stuck at end in {}", model.name());
    }
}

#[test]
fn models_disagree_on_midpoints() {
    let start = Rgb8::new(0x00, 0x33, 0x66);
    let end = Rgb8::new(0x99, 0xcc, 0x00);
    let rgb_mid = gradient(&Model::Rgb, &start, &end, 3)[1];
    let lab_mid = gradient(&Model::Lab, &start, &end, 3)[1];
    let cam_mid = gradient(&Model::Cam16Jch, &start, &end, 3)[1];
    assert_ne!(rgb_mid, lab_mid);
    assert_ne!(rgb_mid, cam_mid);
}

#[test]
fn swatches_pair_each_color_with_its_text() {
    let start = Rgb8::new(0x10, 0x04, 0x08);
    let end = Rgb8::new(0xf3, 0xf7, 0xff);
    for model in [Model::Rgb, Model::Hsl, Model::Cam16Qsh] {
        let colors = gradient(&model, &start, &end, 6);
        let swatches = gradient_swatches(&model, &start, &end, 6);
        assert_eq!(swatches.len(), 6);
        for (c, s) in colors.iter().zip(swatches.iter()) {
            assert_eq!(s.color, *c);
            assert_eq!(s.text, pick_text_color(c));
        }
    }
}
