use colormix::{pick_text_color, swatch, text_black, text_white, Rgb8};

#[test]
fn candidates_are_near_white_and_near_black() {
    assert_eq!(text_white(), Rgb8::new(245, 245, 245));
    assert_eq!(text_black(), Rgb8::new(10, 10, 10));
}

#[test]
fn black_background_selects_near_white() {
    assert_eq!(pick_text_color(&Rgb8::new(0, 0, 0)), text_white());
}

#[test]
fn white_background_selects_near_black() {
    assert_eq!(pick_text_color(&Rgb8::new(255, 255, 255)), text_black());
}

#[test]
fn dark_and_light_backgrounds_split() {
    assert_eq!(pick_text_color(&Rgb8::new(0x20, 0x10, 0x80)), text_white());
    assert_eq!(pick_text_color(&Rgb8::new(0xe8, 0xf8, 0x60)), text_black());
}

#[test]
fn swatch_keeps_color_and_selects_text() {
    let bg = Rgb8::new(0, 0, 0);
    let s = swatch(&bg);
    assert_eq!(s.color, bg);
    assert_eq!(s.text, text_white());
}
