use vstd::prelude::*;

use crate::color::{hsl_mix_of, hsl_rgb_frac, percent_bits, Color};
use vstd::arithmetic::div_mod::{
    lemma_fundamental_div_mod, lemma_hoist_over_denominator, lemma_mod_add_multiples_vanish,
    lemma_multiply_divide_lt,
};

verus! {

/// Number of RGB-LEDs. The total number of LEDs to drive is three times this.
pub const CHANNELS: u8 = 12;

/// A fixed-point fraction x with 0 <= x < 1, stored as an 8-bit numerator
/// over a constant denominator of 256. The value of `RampRatio(b)` is b/256.
///
/// This is the ratio type used both for the ramp ratio of a [`Cue`] and for
/// the mixing factor handed to the color interpolation primitives.
#[derive(Clone, Copy, PartialEq, Eq, Structural, Debug)]
pub struct RampRatio(pub u8);

impl RampRatio {
    /// The fraction 0.
    pub fn zero() -> (r: RampRatio)
        ensures
            r.0 == 0,
    {
        RampRatio(0)
    }

    /// The largest representable fraction, 255/256. The type cannot hold 1,
    /// so this stands in for it wherever a full-scale ratio is needed.
    pub fn max_ratio() -> (r: RampRatio)
        ensures
            r.0 == 255,
    {
        RampRatio(255)
    }

    /// Build a ratio from its raw 8-bit numerator.
    pub fn from_bits(bits: u8) -> (r: RampRatio)
        ensures
            r.0 == bits,
    {
        RampRatio(bits)
    }

    /// The raw 8-bit numerator of the fraction.
    pub fn to_bits(self) -> (bits: u8)
        ensures
            bits == self.0,
    {
        self.0
    }
}

/// The algorithm used for transitioning between two colors.
#[derive(Clone, Copy, PartialEq, Eq, Structural, Debug)]
pub enum RampType {
    /// Hard cut, no interpolation between colors
    Jump,
    /// Interpolate R, G and B linearly. Will sometimes lead to ugly colors
    /// in between the two specified ones
    LinearRGB,
    /// Interpolate H, S and L linearly. Will always look nice, but may lead
    /// to undesired additional colors in between.
    LinearHSL {
        /// If true, jump over the gap between Hue 0 and 360 degrees.
        /// For example, this allows to transition from yellow to pink through
        /// red, instead of through green, cyan and blue.
        wrap_hue: bool,
    },
}

/// A simple animation that transitions between two colors cyclically.
/// It transitions from the start color to the end color and then back.
#[derive(Clone, Copy)]
pub struct Cue {
    /// Each LED can be turned off. This is only relevant when using the
    /// Cue in a Schedule
    pub channels: [bool; 12],
    /// Play the Cue in reverse
    pub reverse: bool,
    /// Repeat the pattern after reaching a certain LED. Example values:
    /// - *12*: One full rotation with no visible seams
    /// - *6*: Two moving elements with no visible seams
    /// - *4*: Three moving elements with no visible seams
    /// - *1*: All LEDs are animated in the same manner
    ///
    /// Must never be zero; evaluation falls back to zero progress if it is.
    pub time_divisor: u8,
    /// The duration until the animation repeats, in milliseconds. A u16 is
    /// enough for 65 seconds and keeps every intermediate product of the
    /// progress calculation comfortably inside 32 bits.
    ///
    /// Must never be zero; evaluation falls back to zero progress if it is.
    pub duration_ms: u16,
    /// The algorithm to use for transitioning between the two colors.
    /// Also see [`RampType`]
    pub ramp_type: RampType,
    /// The ratio between the transition from start to end and end to start
    pub ramp_ratio: RampRatio,
    /// The color to start from
    pub start_color: Color,
    /// The color to transition to
    pub end_color: Color,
}

/// Truncating fixed-point division of two ratios, saturating at the largest
/// representable fraction. The quotient of num/256 by den/256 is num/den,
/// whose numerator over 256 is (num * 256) / den. A zero divisor saturates
/// as well instead of faulting.
pub open spec fn sat_div_bits(num: int, den: int) -> int {
    if den == 0 {
        255
    } else if (num * 256) / den > 255 {
        255
    } else {
        (num * 256) / den
    }
}

/// The triangular rise/fall envelope: progress below the ramp ratio scales
/// up to full within the ramp, progress above it scales back down to zero
/// over the rest of the cycle.
pub open spec fn mixing_factor_bits(ramp_bits: int, progress_bits: int) -> int {
    if progress_bits <= ramp_bits {
        sat_div_bits(progress_bits, ramp_bits)
    } else {
        255 - sat_div_bits(progress_bits - ramp_bits, 255 - ramp_bits)
    }
}

impl Cue {
    /// The structural invariant: both timing parameters are positive, so no
    /// evaluation ever divides by zero.
    pub open spec fn wf(self) -> bool {
        self.time_divisor >= 1 && self.duration_ms >= 1
    }

    /// Every LED participates in the animation.
    pub open spec fn all_channels_on(self) -> bool {
        forall|i: int| 0 <= i < 12 ==> self.channels@[i] == true
    }

    /// The effective channel index used for phase offsetting: in reverse
    /// mode the channel itself, otherwise mirrored so that lower channel
    /// indices get a higher phase.
    pub open spec fn effective_channel(self, channel: u8) -> int {
        if self.reverse {
            channel as int
        } else {
            11 - channel
        }
    }

    /// The progress numerator (over 256) at a point in time for one channel:
    /// the time is shifted by a per-channel phase offset, wrapped around the
    /// animation period, and scaled to a fraction of 255, both divisions
    /// rounding to nearest by adding half the divisor first. A zero duration
    /// or divisor yields zero progress instead of faulting.
    pub open spec fn progress_bits(self, time_ms: int, channel: u8) -> int {
        let d = self.duration_ms as int;
        let v = self.time_divisor as int;
        if d == 0 || v == 0 {
            0
        } else {
            let offset = (d * self.effective_channel(channel) + v / 2) / v;
            let wrapped = (time_ms + offset) % d;
            (wrapped * 255 + d / 2) / d
        }
    }

    /// Return a fraction of how far the animation has progressed for the
    /// specified LED at the given time.
    pub fn progress(&self, time_ms: u32, channel: u8) -> (r: RampRatio)
        requires
            channel < CHANNELS,
        ensures
            r.0 == self.progress_bits(time_ms as int, channel),
    {
        // Handle reversed cue: in non-reverse, lower channels need a higher
        // progress
        let eff: u8 = if self.reverse {
            channel
        } else {
            CHANNELS - 1 - channel
        };

        // We need the duration to be u32 in all calculations
        let duration = self.duration_ms as u32;
        let divisor = self.time_divisor as u32;

        // Defensive fallback; a well-formed Cue never takes this path.
        if duration == 0 || divisor == 0 {
            return RampRatio(0);
        }
        proof {
            assert(duration * (eff as u32) <= 65535 * 11) by (nonlinear_arith)
                requires
                    duration <= 65535,
                    eff <= 11,
            ;
        }
        // Offset calculation for the given channel; `+ (divisor / 2)` before
        // dividing achieves mathematical integer rounding instead of
        // truncation.
        let offset: u32 = (duration * eff as u32 + divisor / 2) / divisor;

        // Make the effect wrap around. The sum is taken at 64 bits so that
        // times near u32::MAX cannot overflow; the wrapped value is below
        // the duration, so it fits a u32 (and in fact a u16) again.
        let wrapped64: u64 = (time_ms as u64 + offset as u64) % duration as u64;
        let wrapped: u32 = wrapped64 as u32;

        // Calculate progress as a fraction of u8::MAX, rounded to nearest.
        let numer: u32 = wrapped * 255 + duration / 2;
        proof {
            assert(numer < duration * 256) by (nonlinear_arith)
                requires
                    wrapped < duration,
                    numer == wrapped * 255 + duration / 2,
            ;
            lemma_multiply_divide_lt(numer as int, duration as int, 256);
        }
        let bits: u32 = numer / duration;
        RampRatio(bits as u8)
    }

    /// Calculate the factor for color mixing from the current progress.
    ///
    /// This is total: every pair of a legal ramp ratio and a legal progress
    /// is accepted, and the divisions saturate instead of faulting, even at
    /// the extremes of the ramp ratio.
    pub fn mixing_factor(&self, progress: RampRatio) -> (f: RampRatio)
        ensures
            f.0 == mixing_factor_bits(self.ramp_ratio.0 as int, progress.0 as int),
    {
        let p = progress.0;
        let r = self.ramp_ratio.0;
        if p <= r {
            // Actual formula: progress / ramp_ratio, reaching full scale
            // exactly at the ramp ratio.
            RampRatio(sat_div_u8(p, r))
        } else {
            // Actual formula: 1 - (progress - ramp_ratio) / (1 - ramp_ratio),
            // with 255 bits standing in for the unrepresentable 1.
            RampRatio(255 - sat_div_u8(p - r, 255 - r))
        }
    }

    /// Calculate the color for the given progress if the RampType is Jump.
    fn color_jump(&self, progress: RampRatio) -> (c: Color)
        ensures
            c == (if progress.0 < self.ramp_ratio.0 {
                self.start_color
            } else {
                self.end_color
            }),
    {
        if progress.0 < self.ramp_ratio.0 {
            self.start_color
        } else {
            self.end_color
        }
    }

    /// The color that `current_color` produces, as a function of the
    /// progress at the given time and channel and of the ramp settings.
    pub open spec fn current_color_spec(self, time_ms: int, channel: u8) -> Color {
        let p = self.progress_bits(time_ms, channel);
        match self.ramp_type {
            RampType::Jump => if p < self.ramp_ratio.0 {
                self.start_color
            } else {
                self.end_color
            },
            RampType::LinearRGB => self.start_color.mix_rgb_spec(
                self.end_color,
                mixing_factor_bits(self.ramp_ratio.0 as int, p) as u8,
            ),
            RampType::LinearHSL { wrap_hue } => {
                let t = hsl_mix_of(
                    self.start_color.rgb(),
                    self.end_color.rgb(),
                    mixing_factor_bits(self.ramp_ratio.0 as int, p) as u8,
                );
                Color { red: t.0, green: t.1, blue: t.2 }
            },
        }
    }

    /// Calculate the Color of a single LED at a given point in time.
    pub fn current_color(&self, time_ms: u32, channel: u8) -> (c: Color)
        requires
            channel < CHANNELS,
        ensures
            c == self.current_color_spec(time_ms as int, channel),
    {
        let progress = self.progress(time_ms, channel);

        match self.ramp_type {
            RampType::Jump => self.color_jump(progress),
            RampType::LinearRGB => self
                .start_color
                .linear_mix_rgb(&self.end_color, self.mixing_factor(progress)),
            RampType::LinearHSL { wrap_hue } => self.start_color.linear_mix_hsl(
                self.end_color,
                self.mixing_factor(progress),
                wrap_hue,
            ),
        }
    }

    /// Create a pre-built Cue displaying a clockwise rotating rainbow.
    pub fn rainbow() -> (c: Cue)
        ensures
            c.wf(),
            c.all_channels_on(),
            !c.reverse,
            c.time_divisor == 12,
            c.duration_ms == 3000,
            c.ramp_type == (RampType::LinearHSL { wrap_hue: false }),
            c.ramp_ratio.0 == 255,
            c.start_color.rgb() == hsl_rgb_frac(0, percent_bits(100), percent_bits(50)),
            c.end_color.rgb() == hsl_rgb_frac(359, percent_bits(100), percent_bits(50)),
    {
        let mut c = Cue::default();
        c.duration_ms = 3000;
        c.ramp_type = RampType::LinearHSL { wrap_hue: false };
        c.ramp_ratio = RampRatio::max_ratio();
        c.start_color = Color::from_hsl(0, 100, 50);
        c.end_color = Color::from_hsl(359, 100, 50);
        c
    }

    /// Create a pre-built Cue displaying a clockwise rotating black and
    /// white half.
    pub fn black_white_jump() -> (c: Cue)
        ensures
            c.wf(),
            c.all_channels_on(),
            !c.reverse,
            c.time_divisor == 12,
            c.duration_ms == 3000,
            c.ramp_type == (RampType::Jump),
            c.ramp_ratio.0 == 128,
            c.start_color == (Color { red: 255, green: 255, blue: 255 }),
            c.end_color == (Color { red: 0, green: 0, blue: 0 }),
    {
        let mut c = Cue::default();
        c.duration_ms = 3000;
        c.start_color = Color::white();
        c.end_color = Color::black();
        c
    }

    /// The observable fields of the white breathing preset: all channels
    /// on, forward play, a 3.6 second cycle with no phase spacing, and a
    /// linear RGB ramp from black to white peaking just short of two fifths
    /// into the cycle.
    pub open spec fn is_white_breathing(self) -> bool {
        &&& self.all_channels_on()
        &&& !self.reverse
        &&& self.time_divisor == 1
        &&& self.duration_ms == 3600
        &&& self.ramp_type == (RampType::LinearRGB)
        &&& self.ramp_ratio.0 == 102
        &&& self.start_color == (Color { red: 0, green: 0, blue: 0 })
        &&& self.end_color == (Color { red: 255, green: 255, blue: 255 })
    }

    /// Create a pre-built Cue displaying a white breathing effect.
    pub fn white_breathing() -> (c: Cue)
        ensures
            c.wf(),
            c.is_white_breathing(),
    {
        let mut c = Cue::default();
        c.duration_ms = 3600;
        c.ramp_type = RampType::LinearRGB;
        // 102/256 is just below 0.4: two fifths of the cycle ramp up, the
        // rest ramps back down.
        c.ramp_ratio = RampRatio::from_bits(102);
        c.time_divisor = 1;
        c.start_color = Color::black();
        c.end_color = Color::white();
        c
    }
}

impl Default for Cue {
    /// Default Cue will be black, change at least the colors to make it
    /// visible! All channels are on, the animation takes one second, and the
    /// hard cut sits in the middle of the cycle.
    fn default() -> (c: Cue)
        ensures
            c.wf(),
            c.all_channels_on(),
            !c.reverse,
            c.time_divisor == 12,
            c.duration_ms == 1000,
            c.ramp_type == (RampType::Jump),
            c.ramp_ratio.0 == 128,
            c.start_color == (Color { red: 0, green: 0, blue: 0 }),
            c.end_color == (Color { red: 0, green: 0, blue: 0 }),
    {
        Cue {
            channels: [true; 12],
            reverse: false,
            time_divisor: 12,
            // Don't set the duration to 0, otherwise the Cue would be
            // invisible.
            duration_ms: 1000,
            ramp_type: RampType::Jump,
            // Don't set the ratio to 0, the start color would be invisible.
            ramp_ratio: RampRatio::from_bits(128),
            // Set colors to black, those should be changed!
            start_color: Color::black(),
            end_color: Color::black(),
        }
    }
}

/// Truncating fixed-point division of ratio numerators, saturating both at a
/// zero divisor and at quotients too large to represent.
fn sat_div_u8(num: u8, den: u8) -> (q: u8)
    ensures
        q == sat_div_bits(num as int, den as int),
{
    if den == 0 {
        255
    } else {
        let q32: u32 = (num as u32 * 256) / den as u32;
        if q32 > 255 {
            255
        } else {
            q32 as u8
        }
    }
}

/// The mixing envelope never leaves the representable fraction range, for
/// every pair of a ramp ratio and a progress value: both saturating
/// divisions stay within 8 bits, so no evaluation can overflow. (That the
/// executable `mixing_factor` accepts every such pair without faulting is
/// stated by its contract, which asks nothing of its inputs.)
pub proof fn lemma_mixing_factor_bounded(ramp_bits: u8, progress_bits: u8)
    ensures
        0 <= mixing_factor_bits(ramp_bits as int, progress_bits as int) <= 255,
{
}

/// Progress is periodic in time with the animation duration as its period:
/// advancing any point in time by one full duration leaves the progress of
/// every channel unchanged.
pub proof fn lemma_progress_periodic(cue: Cue, time_ms: int, channel: u8)
    ensures
        cue.progress_bits(time_ms + cue.duration_ms, channel) == cue.progress_bits(
            time_ms,
            channel,
        ),
{
    let d = cue.duration_ms as int;
    let v = cue.time_divisor as int;
    if d != 0 && v != 0 {
        let offset = (d * cue.effective_channel(channel) + v / 2) / v;
        lemma_mod_add_multiples_vanish(time_ms + offset, d);
        assert((d + (time_ms + offset)) % d == (time_ms + offset) % d);
        assert((time_ms + d + offset) % d == (time_ms + offset) % d);
    }
}

/// For a Cue whose time divisor divides its duration evenly, channels
/// spaced k steps apart are phase-equivalent to advancing time by k steps
/// of duration/time_divisor: in reverse mode the higher channel matches the
/// lower one that many steps later, and in forward mode the other way
/// around.
pub proof fn lemma_progress_phase_shift(cue: Cue, time_ms: int, channel: u8, k: u8)
    requires
        channel + k < 12,
        cue.wf(),
        cue.duration_ms as int % cue.time_divisor as int == 0,
    ensures
        cue.reverse ==> cue.progress_bits(time_ms, (channel + k) as u8) == cue.progress_bits(
            time_ms + k * (cue.duration_ms as int / cue.time_divisor as int),
            channel,
        ),
        !cue.reverse ==> cue.progress_bits(
            time_ms + k * (cue.duration_ms as int / cue.time_divisor as int),
            (channel + k) as u8,
        ) == cue.progress_bits(time_ms, channel),
{
    let d = cue.duration_ms as int;
    let v = cue.time_divisor as int;
    let m = d / v;
    lemma_fundamental_div_mod(d, v);
    assert(d == v * m);
    // The lower of the two effective channel indices involved.
    let e: int = if cue.reverse {
        channel as int
    } else {
        11 - channel - k
    };
    assert(d * (e + k) == d * e + k * m * v) by (nonlinear_arith)
        requires
            d == v * m,
    ;
    lemma_hoist_over_denominator(d * e + v / 2, k * m, v as nat);
    assert((d * (e + k) + v / 2) / v == (d * e + v / 2) / v + k * m);
}

} // verus!
