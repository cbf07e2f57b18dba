use iris_lib::color::{interpolate, Color};
use iris_lib::cue::RampRatio;

#[test]
fn test_interpolate() {
    // Trivial cases
    assert_eq!(interpolate(0, 255, RampRatio::from_bits(0)), 0);
    assert_eq!(interpolate(0, 255, RampRatio::max_ratio()), 255);
    // Flipped inputs
    assert_eq!(interpolate(255, 0, RampRatio::from_bits(0)), 255);
    assert_eq!(interpolate(255, 0, RampRatio::max_ratio()), 0);

    // Fractions of 255
    assert_eq!(interpolate(0, 255, RampRatio::from_bits(192)), 192);
    assert_eq!(interpolate(0, 255, RampRatio::from_bits(128)), 128);
    assert_eq!(interpolate(0, 255, RampRatio::from_bits(64)), 64);
}

#[test]
fn color_test_interpolate() {
    // Trivial cases
    assert_eq!(interpolate(0, 255, RampRatio::from_bits(0)), 0);
    assert_eq!(interpolate(0, 255, RampRatio::max_ratio()), 255);
    // Flipped inputs
    assert_eq!(interpolate(255, 0, RampRatio::from_bits(0)), 255);
    assert_eq!(interpolate(255, 0, RampRatio::max_ratio()), 0);

    // Fractions of 255
    assert_eq!(interpolate(0, 255, RampRatio::from_bits(192)), 192);
    assert_eq!(interpolate(0, 255, RampRatio::from_bits(128)), 128);
    assert_eq!(interpolate(0, 255, RampRatio::from_bits(64)), 64);
}

#[test]
fn interpolate_endpoints_everywhere() {
    // A zero factor returns the start and a full factor returns the end,
    // also away from the 0/255 extremes.
    for (s, e) in [(0u8, 255u8), (3, 7), (200, 10), (33, 250), (199, 5), (128, 128)] {
        assert_eq!(interpolate(s, e, RampRatio::zero()), s);
        assert_eq!(interpolate(s, e, RampRatio::max_ratio()), e);
    }
}

#[test]
fn interpolate_intermediate_values() {
    assert_eq!(interpolate(0, 200, RampRatio::from_bits(128)), 100);
    assert_eq!(interpolate(200, 100, RampRatio::from_bits(51)), 180);
    assert_eq!(interpolate(0, 99, RampRatio::from_bits(85)), 33);
    assert_eq!(interpolate(20, 120, RampRatio::from_bits(128)), 70);
}

#[test]
fn linear_mix_rgb_per_channel() {
    let a = Color::new(0, 200, 255);
    let b = Color::new(255, 100, 0);
    let mixed = a.linear_mix_rgb(&b, RampRatio::from_bits(128));
    assert_eq!(mixed, Color::new(128, 150, 127));
    assert_eq!(a.linear_mix_rgb(&b, RampRatio::zero()), a);
    assert_eq!(a.linear_mix_rgb(&b, RampRatio::max_ratio()), b);
}

#[test]
fn from_hsl_primary_colors() {
    assert_eq!(Color::from_hsl(0, 100, 50), Color::new(255, 0, 0));
    assert_eq!(Color::from_hsl(120, 100, 50), Color::new(0, 255, 0));
    assert_eq!(Color::from_hsl(240, 100, 50), Color::new(0, 0, 255));
    assert_eq!(Color::from_hsl(0, 0, 0), Color::new(0, 0, 0));
    assert_eq!(Color::from_hsl(0, 0, 100), Color::new(255, 255, 255));
}

#[test]
fn from_hsl_wraps_hue() {
    // 359 degrees sits just short of wrapping back to red.
    assert_eq!(Color::from_hsl(359, 100, 50), Color::new(255, 0, 4));
}

#[test]
fn linear_mix_hsl_blends_through_hue() {
    let red = Color::new(255, 0, 0);
    let blue = Color::new(0, 0, 255);
    // The hue moves along the shorter arc from 0 to 240 degrees, so the
    // halfway point is 300 degrees: magenta.
    assert_eq!(
        red.linear_mix_hsl(blue, RampRatio::from_bits(128), false),
        Color::new(255, 0, 255)
    );
    // A zero factor keeps the first color.
    assert_eq!(red.linear_mix_hsl(blue, RampRatio::zero(), false), red);
}

#[test]
fn linear_mix_hsl_lightness_midpoint() {
    let black = Color::new(0, 0, 0);
    let white = Color::new(255, 255, 255);
    assert_eq!(
        black.linear_mix_hsl(white, RampRatio::from_bits(128), false),
        Color::new(128, 128, 128)
    );
}
