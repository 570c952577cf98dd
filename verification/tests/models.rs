use colormix::{hex_code, Model, Rgb8};

#[test]
fn all_models_are_listed_once() {
    let all = Model::all();
    assert_eq!(all.len(), 23);
    for (i, a) in all.iter().enumerate() {
        for b in &all[i + 1..] {
            assert_ne!(a, b);
        }
    }
}

#[test]
fn names_match_the_display_labels() {
    assert_eq!(Model::Rgb.name(), "rgb");
    assert_eq!(Model::LinRgb.name(), "lin. srgb");
    assert_eq!(Model::Okhwb.name(), "okhwb");
    assert_eq!(Model::Cam16Qsh.name(), "Cam16Qsh");
}

#[test]
fn doc_urls_point_at_each_model() {
    assert_eq!(
        Model::Rgb.doc_url(),
        "https://docs.rs/palette/0.7.7/palette/type.Srgb.html"
    );
    assert_eq!(
        Model::Cam16Jch.doc_url(),
        "https://docs.rs/palette/0.7.7/palette/cam16/struct.Cam16Jch.html"
    );
}

#[test]
fn appearance_variants_are_the_cam16_ones() {
    let mut appearance = 0;
    for model in Model::all() {
        if model.is_appearance() {
            appearance += 1;
            assert!(model.name().starts_with("Cam16"));
        }
    }
    assert_eq!(appearance, 6);
}

#[test]
fn hue_components_follow_the_families() {
    assert_eq!(Model::Rgb.hue_component(), None);
    assert_eq!(Model::Lab.hue_component(), None);
    assert_eq!(Model::Hsl.hue_component(), Some(0));
    assert_eq!(Model::Hwb.hue_component(), Some(0));
    assert_eq!(Model::Lch.hue_component(), Some(2));
    for model in Model::all() {
        if model.is_appearance() {
            assert_eq!(model.hue_component(), Some(2));
        }
    }
}

#[test]
fn hex_codes_use_lowercase_digits() {
    assert_eq!(hex_code(&Rgb8::new(0x00, 0x33, 0x66)), b"#003366");
    assert_eq!(hex_code(&Rgb8::new(0xff, 0xff, 0xff)), b"#ffffff");
    assert_eq!(hex_code(&Rgb8::new(10, 10, 10)), b"#0a0a0a");
    assert_eq!(hex_code(&Rgb8::new(0xab, 0xcd, 0xef)), b"#abcdef");
    assert_eq!(hex_code(&Rgb8::new(0, 0, 0)), b"#000000");
}
