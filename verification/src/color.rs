use vstd::prelude::*;

use crate::cue::RampRatio;
use vstd::arithmetic::div_mod::{lemma_div_is_ordered, lemma_div_pos_is_pos};

verus! {

/// Describes an RGB color. This is the format used for storing colors.
#[derive(Clone, Copy, PartialEq, Eq, Structural, Debug)]
pub struct Color {
    pub red: u8,
    pub green: u8,
    pub blue: u8,
}

/// What `interpolate` computes: walk the fraction `factor_bits / 255` of the
/// way from `start` towards `end`, truncating the scaled delta.
pub open spec fn interpolate_spec(start: u8, end: u8, factor_bits: u8) -> int {
    let delta: int = if start < end {
        end - start
    } else {
        start - end
    };
    let scaled: int = (delta * factor_bits) / 255;
    if start < end {
        start + scaled
    } else {
        start - scaled
    }
}

/// Interpolate between two numbers using a fixed-point factor between 0 and 1.
///
/// A factor of 0 returns `start` exactly, and the maximum factor (255 bits)
/// returns `end` exactly; see [`lemma_interpolate_endpoints`].
pub fn interpolate(start: u8, end: u8, factor: RampRatio) -> (r: u8)
    ensures
        r == interpolate_spec(start, end, factor.0),
{
    // We work with unsigned integers, so we need to make sure our delta is positive
    let positive_delta = start < end;
    let delta = if positive_delta {
        end - start
    } else {
        start - end
    };

    proof {
        assert((delta as int) * (factor.0 as int) <= 255 * 255) by (nonlinear_arith)
            requires
                delta <= 255,
                factor.0 <= 255,
        ;
        assert(((delta as int) * (factor.0 as int)) / 255 <= delta as int) by (nonlinear_arith)
            requires
                0 <= delta,
                factor.0 <= 255,
        ;
    }

    // Both factors fit in a u8, so the product fits in a u16, and dividing
    // by 255 brings the quotient back below the delta, hence below 256.
    let scaled_summand = ((delta as u16 * factor.to_bits() as u16) / 255) as u8;

    if positive_delta {
        start + scaled_summand
    } else {
        start - scaled_summand
    }
}

/// A zero factor keeps the start value and a full-scale factor reaches the
/// end value exactly, whatever the two endpoints are.
pub proof fn lemma_interpolate_endpoints(start: u8, end: u8)
    ensures
        interpolate_spec(start, end, 0) == start,
        interpolate_spec(start, end, 255) == end,
{
}

/// Between the endpoints the interpolation is monotonic in the factor:
/// growing the factor moves the result from the start towards the end,
/// never past it and never backwards.
pub proof fn lemma_interpolate_monotonic(start: u8, end: u8, f1: u8, f2: u8)
    requires
        f1 <= f2,
    ensures
        start <= end ==> start <= interpolate_spec(start, end, f1) <= interpolate_spec(
            start,
            end,
            f2,
        ) <= end,
        start >= end ==> start >= interpolate_spec(start, end, f1) >= interpolate_spec(
            start,
            end,
            f2,
        ) >= end,
{
    let delta: int = if start < end {
        end - start
    } else {
        start - end
    };
    assert(0 <= delta * f1 && delta * f1 <= delta * f2) by (nonlinear_arith)
        requires
            0 <= delta,
            0 <= f1 <= f2,
    ;
    lemma_div_is_ordered(delta * f1, delta * f2, 255);
    assert((delta * f2) / 255 <= delta) by (nonlinear_arith)
        requires
            0 <= delta,
            f2 <= 255,
    ;
    lemma_div_pos_is_pos(delta * f1, 255);
}

/// The RGB triple that palette's HSL-to-RGB conversion produces for a hue in
/// degrees and a saturation and lightness given as 16.16 fixed-point
/// fractions (numerators over 65536). The result depends on the arguments
/// alone.
pub uninterp spec fn hsl_rgb_frac(h: u16, s_bits: u32, l_bits: u32) -> (u8, u8, u8);

/// The RGB triple that palette's linear HSL mixing produces for the two
/// endpoint colors and a mixing factor of `factor_bits / 256`. The result
/// depends on the arguments alone.
pub uninterp spec fn hsl_mix_of(a: (u8, u8, u8), b: (u8, u8, u8), factor_bits: u8) -> (u8, u8, u8);

/// A percentage turned into a 16.16 fixed-point fraction: 100 maps to a full
/// 65536, and intermediate values truncate.
pub open spec fn percent_bits(p: u8) -> u32 {
    ((p * 65536) / 100) as u32
}

impl Color {
    pub fn new(red: u8, green: u8, blue: u8) -> (c: Color)
        ensures
            c == (Color { red, green, blue }),
    {
        Color { red, green, blue }
    }

    pub fn black() -> (c: Color)
        ensures
            c == (Color { red: 0, green: 0, blue: 0 }),
    {
        Color::new(0, 0, 0)
    }

    pub fn white() -> (c: Color)
        ensures
            c == (Color { red: 255, green: 255, blue: 255 }),
    {
        Color::new(255, 255, 255)
    }

    /// The channels of this color as one triple, for use in contracts.
    pub open spec fn rgb(self) -> (u8, u8, u8) {
        (self.red, self.green, self.blue)
    }

    /// Standard HSL-to-RGB conversion. The hue is in degrees (wrapping
    /// beyond 360), saturation and lightness are percentages; values above
    /// 100 saturate at full scale. Channel results are rounded to 8 bits.
    pub fn from_hsl(h: u16, s: u8, l: u8) -> (c: Color)
        ensures
            c.rgb() == hsl_rgb_frac(h, percent_bits(s), percent_bits(l)),
    {
        let s_bits: u32 = s as u32 * 65536 / 100;
        let l_bits: u32 = l as u32 * 65536 / 100;
        hsl_to_rgb_call(h, s_bits, l_bits)
    }

    /// Mix two colors by converting both to HSL, interpolating hue,
    /// saturation and lightness linearly, and converting back.
    ///
    /// `wrap_hue` is meant to select shortest-path blending across the
    /// 0/360 degree hue boundary. Whether that is the intended behaviour is
    /// unresolved, and the flag is currently not consulted: the underlying
    /// blend always follows the shorter hue arc, so the result does not
    /// depend on it.
    pub fn linear_mix_hsl(self, other: Color, factor: RampRatio, wrap_hue: bool) -> (c: Color)
        ensures
            c.rgb() == hsl_mix_of(self.rgb(), other.rgb(), factor.0),
    {
        mix_hsl_call(&self, &other, factor.to_bits())
    }

    /// The color that `linear_mix_rgb` returns: each channel interpolated
    /// independently by the same factor.
    pub open spec fn mix_rgb_spec(self, other: Color, factor_bits: u8) -> Color {
        Color {
            red: interpolate_spec(self.red, other.red, factor_bits) as u8,
            green: interpolate_spec(self.green, other.green, factor_bits) as u8,
            blue: interpolate_spec(self.blue, other.blue, factor_bits) as u8,
        }
    }

    /// Mix two colors by interpolating the red, green and blue channels
    /// independently.
    pub fn linear_mix_rgb(&self, other: &Color, factor: RampRatio) -> (c: Color)
        ensures
            c == self.mix_rgb_spec(*other, factor.0),
    {
        Color {
            red: interpolate(self.red, other.red, factor),
            green: interpolate(self.green, other.green, factor),
            blue: interpolate(self.blue, other.blue, factor),
        }
    }
}

/// Relies on palette's `Hsl`-to-`Srgb` conversion: a pure function from the
/// hue, saturation and lightness handed in (as degrees and 16.16 fixed-point
/// fractions) to one RGB triple, clamped to the valid range and rounded to
/// 8 bits per channel.
#[verifier::external_body]
fn hsl_to_rgb_call(h: u16, s_bits: u32, l_bits: u32) -> (c: Color)
    ensures
        c.rgb() == hsl_rgb_frac(h, s_bits, l_bits),
{
    let hsl: palette::Hsl = palette::Hsl::new(
        palette::RgbHue::from_degrees(h.into()),
        fixed::types::U16F16::from_bits(s_bits).to_num(),
        fixed::types::U16F16::from_bits(l_bits).to_num(),
    );
    let rgb: palette::Srgb = palette::FromColor::from_color(hsl);
    let bytes: palette::Srgb<u8> = rgb.into_format();
    Color { red: bytes.red, green: bytes.green, blue: bytes.blue }
}

/// Relies on palette's `Mix` for `Hsl`: both colors are converted to HSL,
/// the components are interpolated linearly by `factor_bits / 256` (the hue
/// along its shorter arc), and the result is converted back. A pure
/// function of the two colors and the factor.
#[verifier::external_body]
fn mix_hsl_call(a: &Color, b: &Color, factor_bits: u8) -> (c: Color)
    ensures
        c.rgb() == hsl_mix_of(a.rgb(), b.rgb(), factor_bits),
{
    let a_hsl: palette::Hsl =
        palette::FromColor::from_color(palette::Srgb::new(a.red, a.green, a.blue).into_format());
    let b_hsl: palette::Hsl =
        palette::FromColor::from_color(palette::Srgb::new(b.red, b.green, b.blue).into_format());
    let mixed = palette::Mix::mix(a_hsl, b_hsl, fixed::types::U0F8::from_bits(factor_bits).to_num());
    let rgb: palette::Srgb = palette::FromColor::from_color(mixed);
    let bytes: palette::Srgb<u8> = rgb.into_format();
    Color { red: bytes.red, green: bytes.green, blue: bytes.blue }
}

} // verus!
