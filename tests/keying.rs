use vtracer_core::{
    apply_keying, color_exists_in_image, draw_random_colors, find_unused_color_in_image, is_foreground, key_image,
    key_image_with, same_label, should_key_image, ConvertError, KeyColor, RasterImage, NUM_UNUSED_COLOR_ITERATIONS,
};

fn opaque(width: usize, height: usize, r: u8, g: u8, b: u8) -> RasterImage {
    let mut img = RasterImage::new_w_h(width, height);
    for i in 0..width * height {
        img.pixels[4 * i] = r;
        img.pixels[4 * i + 1] = g;
        img.pixels[4 * i + 2] = b;
        img.pixels[4 * i + 3] = 255;
    }
    img
}

fn set_alpha(img: &mut RasterImage, x: usize, y: usize, a: u8) {
    let w = img.width;
    img.pixels[4 * (y * w + x) + 3] = a;
}

fn set_color(img: &mut RasterImage, i: usize, c: KeyColor) {
    img.pixels[4 * i] = c.r;
    img.pixels[4 * i + 1] = c.g;
    img.pixels[4 * i + 2] = c.b;
}

#[test]
fn should_key_exactly_at_threshold() {
    // width 10: the threshold is 10 * 2 / 5 = 4
    let mut img = opaque(10, 5, 10, 20, 30);
    for x in 0..4 {
        set_alpha(&mut img, x, 0, 0);
    }
    assert!(should_key_image(&img));
}

#[test]
fn should_key_one_below_threshold() {
    let mut img = opaque(10, 5, 10, 20, 30);
    for x in 0..3 {
        set_alpha(&mut img, x, 0, 0);
    }
    assert!(!should_key_image(&img));
}

#[test]
fn should_key_counts_across_sampled_rows() {
    // height 8 samples rows 0, 2, 4, 6, 7
    let mut img = opaque(10, 8, 10, 20, 30);
    set_alpha(&mut img, 0, 0, 0);
    set_alpha(&mut img, 1, 2, 0);
    set_alpha(&mut img, 2, 6, 0);
    set_alpha(&mut img, 3, 7, 0);
    assert!(should_key_image(&img));
}

#[test]
fn should_key_ignores_unsampled_rows() {
    // height 8: row 1 is never sampled
    let mut img = opaque(10, 8, 10, 20, 30);
    for x in 0..10 {
        set_alpha(&mut img, x, 1, 0);
    }
    assert!(!should_key_image(&img));
}

#[test]
fn should_key_empty_image_is_false() {
    let img = RasterImage::new_w_h(0, 3);
    assert!(!should_key_image(&img));
    let img = RasterImage::new_w_h(3, 0);
    assert!(!should_key_image(&img));
}

#[test]
fn should_key_narrow_opaque_image_is_false() {
    // width 2: the threshold is 0.8 transparent pixels, which no count of 0 reaches
    let img = opaque(2, 2, 1, 2, 3);
    assert!(!should_key_image(&img));
    let img = opaque(2, 1, 1, 2, 3);
    assert!(!should_key_image(&img));
}

#[test]
fn should_key_threshold_is_not_rounded() {
    // width 7: the threshold is 2.8, so 2 transparent pixels are not enough and 3 are
    let mut img = opaque(7, 4, 10, 20, 30);
    set_alpha(&mut img, 0, 0, 0);
    set_alpha(&mut img, 1, 0, 0);
    assert!(!should_key_image(&img));
    set_alpha(&mut img, 2, 0, 0);
    assert!(should_key_image(&img));
}

#[test]
fn narrow_opaque_image_keeps_sentinel() {
    let mut img = opaque(2, 2, 10, 20, 30);
    let before = img.pixels.clone();
    let r = key_image_with(&mut img, &vec![]);
    assert_eq!(r, Ok(KeyColor::none()));
    assert_eq!(img.pixels, before);
}

#[test]
fn color_exists_finds_color_ignoring_alpha() {
    let mut img = opaque(3, 3, 1, 2, 3);
    set_color(&mut img, 4, KeyColor { r: 9, g: 8, b: 7 });
    set_alpha(&mut img, 1, 1, 0);
    assert!(color_exists_in_image(&img, KeyColor { r: 9, g: 8, b: 7 }));
    assert!(color_exists_in_image(&img, KeyColor { r: 1, g: 2, b: 3 }));
    assert!(!color_exists_in_image(&img, KeyColor { r: 9, g: 8, b: 6 }));
}

#[test]
fn find_unused_skips_present_fixed_colors() {
    let mut img = opaque(2, 1, 255, 0, 0);
    set_color(&mut img, 1, KeyColor { r: 0, g: 255, b: 0 });
    let r = find_unused_color_in_image(&img, &vec![]);
    assert_eq!(r, Ok(KeyColor { r: 0, g: 0, b: 255 }));
}

#[test]
fn find_unused_falls_back_to_random_candidates() {
    let fixed = [
        KeyColor { r: 255, g: 0, b: 0 },
        KeyColor { r: 0, g: 255, b: 0 },
        KeyColor { r: 0, g: 0, b: 255 },
        KeyColor { r: 255, g: 255, b: 0 },
        KeyColor { r: 0, g: 255, b: 255 },
        KeyColor { r: 255, g: 0, b: 255 },
    ];
    let mut img = opaque(6, 1, 0, 0, 0);
    for (i, c) in fixed.iter().enumerate() {
        set_color(&mut img, i, *c);
    }
    let random = vec![KeyColor { r: 255, g: 0, b: 0 }, KeyColor { r: 7, g: 7, b: 7 }];
    assert_eq!(find_unused_color_in_image(&img, &random), Ok(KeyColor { r: 7, g: 7, b: 7 }));
}

#[test]
fn find_unused_exhausted_when_all_twelve_present() {
    let mut all = vec![
        KeyColor { r: 255, g: 0, b: 0 },
        KeyColor { r: 0, g: 255, b: 0 },
        KeyColor { r: 0, g: 0, b: 255 },
        KeyColor { r: 255, g: 255, b: 0 },
        KeyColor { r: 0, g: 255, b: 255 },
        KeyColor { r: 255, g: 0, b: 255 },
    ];
    let random: Vec<KeyColor> = (0..6u8).map(|i| KeyColor { r: i, g: 100, b: 200 }).collect();
    all.extend(random.iter().copied());
    let mut img = opaque(12, 1, 0, 0, 0);
    for (i, c) in all.iter().enumerate() {
        set_color(&mut img, i, *c);
    }
    let r = find_unused_color_in_image(&img, &random);
    assert_eq!(r, Err(ConvertError::KeyColorExhausted));
    assert_eq!(ConvertError::KeyColorExhausted.message(), "unable to find unused color in image to use as key");
}

#[test]
fn find_unused_never_returns_present_color() {
    let rng = fastrand::Rng::with_seed(7);
    let random = draw_random_colors(&rng);
    assert_eq!(random.len(), NUM_UNUSED_COLOR_ITERATIONS);
    let mut img = opaque(4, 4, 255, 0, 0);
    set_color(&mut img, 3, KeyColor { r: 0, g: 255, b: 0 });
    let c = find_unused_color_in_image(&img, &random).unwrap();
    assert!(!color_exists_in_image(&img, c));
}

#[test]
fn draw_random_colors_is_reproducible_with_seed() {
    let a = draw_random_colors(&fastrand::Rng::with_seed(42));
    let b = draw_random_colors(&fastrand::Rng::with_seed(42));
    assert_eq!(a, b);
}

#[test]
fn apply_keying_replaces_only_transparent_colors() {
    let mut img = opaque(2, 1, 10, 20, 30);
    set_alpha(&mut img, 1, 0, 0);
    apply_keying(&mut img, KeyColor { r: 0, g: 0, b: 255 });
    assert_eq!(img.pixels, vec![10, 20, 30, 255, 0, 0, 255, 0]);
}

#[test]
fn keying_is_noop_on_opaque_image() {
    let img0 = opaque(4, 4, 10, 20, 30);
    let mut img = opaque(4, 4, 10, 20, 30);
    let r = key_image_with(&mut img, &vec![KeyColor { r: 1, g: 1, b: 1 }]);
    assert_eq!(r, Ok(KeyColor { r: 0, g: 0, b: 0 }));
    assert_eq!(img.pixels, img0.pixels);
    let r = key_image(&mut img, &fastrand::Rng::with_seed(3));
    assert_eq!(r, Ok(KeyColor::none()));
    assert_eq!(img.pixels, img0.pixels);
}

#[test]
fn keying_transparent_image_uses_first_free_color() {
    let mut img = opaque(5, 5, 255, 0, 0);
    for y in 0..5 {
        for x in 0..5 {
            set_alpha(&mut img, x, y, 0);
        }
    }
    let r = key_image_with(&mut img, &vec![]);
    assert_eq!(r, Ok(KeyColor { r: 0, g: 255, b: 0 }));
    assert_eq!(&img.pixels[0..4], &[0, 255, 0, 0]);
}

#[test]
fn keying_exhausted_leaves_image_alone() {
    let fixed = [
        KeyColor { r: 255, g: 0, b: 0 },
        KeyColor { r: 0, g: 255, b: 0 },
        KeyColor { r: 0, g: 0, b: 255 },
        KeyColor { r: 255, g: 255, b: 0 },
        KeyColor { r: 0, g: 255, b: 255 },
        KeyColor { r: 255, g: 0, b: 255 },
    ];
    let mut img = opaque(6, 1, 0, 0, 0);
    for (i, c) in fixed.iter().enumerate() {
        set_color(&mut img, i, *c);
        set_alpha(&mut img, i, 0, 0);
    }
    let before = img.pixels.clone();
    let r = key_image_with(&mut img, &vec![]);
    assert_eq!(r, Err(ConvertError::KeyColorExhausted));
    assert_eq!(img.pixels, before);
}

#[test]
fn foreground_and_label_rules() {
    assert!(is_foreground(0));
    assert!(is_foreground(127));
    assert!(!is_foreground(128));
    assert!(!is_foreground(255));
    assert!(same_label(5, 5));
    assert!(!same_label(5, 6));
}
