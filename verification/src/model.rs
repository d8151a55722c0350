//! The mathematical model of the four color types: records of integers, and
//! the conversions and operations on them that the executable types compute.
//!
//! A magnitude is an integer in `0..=255` that stands for a fraction of 255;
//! a hue is an integer in `0..360`.

use vstd::prelude::*;
use crate::angle::wrap;
use crate::ratio::{clamped_difference, clamped_sum, scaled_product};
use crate::rounding::round_div;

verus! {

/// Whether `m` is a magnitude.
pub open spec fn is_magnitude(m: int) -> bool {
    0 <= m <= 255
}

/// The greatest of three channels.
pub open spec fn greatest(r: int, g: int, b: int) -> int {
    if r >= g && r >= b {
        r
    } else if g >= b {
        g
    } else {
        b
    }
}

/// The least of three channels.
pub open spec fn least(r: int, g: int, b: int) -> int {
    if r <= g && r <= b {
        r
    } else if g <= b {
        g
    } else {
        b
    }
}

/// The lightness of a color whose greatest and least channels are given:
/// their mean.
pub open spec fn lightness_of(high: int, low: int) -> int {
    round_div(high + low, 2)
}

/// The saturation of a color whose greatest and least channels differ:
/// their spread over their sum in the darker half, over what the sum leaves
/// of twice the whole in the lighter half.
pub open spec fn saturation_of(high: int, low: int) -> int {
    if high + low < 255 {
        round_div(255 * (high - low), high + low)
    } else {
        round_div(255 * (high - low), 510 - (high + low))
    }
}

/// The hue of a color whose channels are not all equal: a sixth of a turn for
/// each unit that the two lesser channels differ by, relative to the spread,
/// counted from the place of the greatest channel on the wheel.
pub open spec fn hue_of(r: int, g: int, b: int) -> int {
    let high = greatest(r, g, b);
    let spread = high - least(r, g, b);
    if high == r {
        wrap(round_div(60 * (g - b), spread))
    } else if high == g {
        wrap(round_div(120 * spread + 60 * (b - r), spread))
    } else {
        wrap(round_div(240 * spread + 60 * (r - g), spread))
    }
}

/// The upper of the two levels between which the channels of a color of
/// saturation `s` and lightness `l` lie, in units of `1 / 255²`.
pub open spec fn upper_level(s: int, l: int) -> int {
    if 2 * l < 255 {
        l * (255 + s)
    } else {
        255 * l + 255 * s - l * s
    }
}

/// The lower of the two levels, in units of `1 / 255²`: as far below the
/// lightness as the upper one is above it.
pub open spec fn lower_level(s: int, l: int) -> int {
    510 * l - upper_level(s, l)
}

/// The level of the channel that stands at `position` degrees on the wheel, in
/// units of `1 / (60 · 255²)`: the upper level from 60 up to 180, the lower
/// level above 240, and a straight line between them elsewhere.
pub open spec fn channel_level(position: int, upper: int, lower: int) -> int {
    if position > 240 {
        60 * lower
    } else if position > 180 {
        60 * lower + (upper - lower) * (240 - position)
    } else if position > 60 {
        60 * upper
    } else {
        60 * lower + (upper - lower) * position
    }
}

/// The magnitude of the channel that stands at `position` degrees.
pub open spec fn channel_of(position: int, s: int, l: int) -> int {
    round_div(channel_level(position, upper_level(s, l), lower_level(s, l)), 15300)
}

/// The weight of the left color's channels in a mix: the weight `w` and the
/// difference `left_alpha - right_alpha`, each stretched from `[0, 1]` to
/// `[-1, 1]`, are combined as `(w + a) / (1 + w·a)` and brought back to
/// `[0, 1]`. Where `w·a` is `-1` the weight stands as it is.
pub open spec fn mix_weight(w: int, left_alpha: int, right_alpha: int) -> int {
    let p = 2 * w - 255;
    let q = left_alpha - right_alpha;
    if p * q == -65025 {
        w
    } else {
        round_div(255 * (w * (255 + q)), 65025 + p * q)
    }
}

/// One channel of a mix: the two channels, each scaled by its weight, added.
pub open spec fn mix_channel(left: int, right: int, weight: int) -> int {
    clamped_sum(
        scaled_product(left, weight),
        scaled_product(right, clamped_difference(255, weight)),
    )
}

/// A color as red, green and blue magnitudes.
pub struct RgbModel {
    pub r: int,
    pub g: int,
    pub b: int,
}

/// A color as red, green, blue and alpha magnitudes.
pub struct RgbaModel {
    pub r: int,
    pub g: int,
    pub b: int,
    pub a: int,
}

/// A color as a hue and saturation and lightness magnitudes.
pub struct HslModel {
    pub h: int,
    pub s: int,
    pub l: int,
}

/// A color as a hue and saturation, lightness and alpha magnitudes.
pub struct HslaModel {
    pub h: int,
    pub s: int,
    pub l: int,
    pub a: int,
}

impl RgbModel {
    /// Whether every channel is a magnitude.
    pub open spec fn valid(self) -> bool {
        is_magnitude(self.r) && is_magnitude(self.g) && is_magnitude(self.b)
    }

    /// The same color with the alpha `a`.
    pub open spec fn with_alpha(self, a: int) -> RgbaModel {
        RgbaModel { r: self.r, g: self.g, b: self.b, a }
    }

    /// The color with the whole alpha.
    pub open spec fn to_rgba(self) -> RgbaModel {
        self.with_alpha(255)
    }

    /// The color in the HSL model, with the whole alpha.
    pub open spec fn to_hsla(self) -> HslaModel {
        self.to_rgba().to_hsla()
    }
}

impl HslModel {
    /// Whether the hue is in range and every other channel is a magnitude.
    pub open spec fn valid(self) -> bool {
        0 <= self.h < 360 && is_magnitude(self.s) && is_magnitude(self.l)
    }

    /// The same color with the alpha `a`.
    pub open spec fn with_alpha(self, a: int) -> HslaModel {
        HslaModel { h: self.h, s: self.s, l: self.l, a }
    }

    /// The color with the whole alpha.
    pub open spec fn to_hsla(self) -> HslaModel {
        self.with_alpha(255)
    }

    /// The color in the RGB model, with the whole alpha.
    pub open spec fn to_rgba(self) -> RgbaModel {
        self.to_hsla().to_rgba()
    }
}

impl RgbaModel {
    /// Whether every channel is a magnitude.
    pub open spec fn valid(self) -> bool {
        is_magnitude(self.r) && is_magnitude(self.g) && is_magnitude(self.b) && is_magnitude(
            self.a,
        )
    }

    /// The color without its alpha.
    pub open spec fn opaque(self) -> RgbModel {
        RgbModel { r: self.r, g: self.g, b: self.b }
    }

    /// The color itself.
    pub open spec fn to_rgba(self) -> RgbaModel {
        self
    }

    /// Whether the color is a grey: no channel differs from another.
    pub open spec fn achromatic(self) -> bool {
        self.r == self.g && self.g == self.b
    }

    /// The color in the HSL model. A grey has hue and saturation zero and the
    /// lightness of its channels; the alpha passes through.
    pub open spec fn to_hsla(self) -> HslaModel {
        if self.achromatic() {
            HslaModel { h: 0, s: 0, l: self.r, a: self.a }
        } else {
            let high = greatest(self.r, self.g, self.b);
            let low = least(self.r, self.g, self.b);
            HslaModel {
                h: hue_of(self.r, self.g, self.b),
                s: saturation_of(high, low),
                l: lightness_of(high, low),
                a: self.a,
            }
        }
    }

    /// The color with the alpha `a`.
    pub open spec fn fade(self, a: int) -> RgbaModel {
        RgbaModel { r: self.r, g: self.g, b: self.b, a }
    }

    /// The mix of `self` and `other`, `self` weighing `w` of 255. The color
    /// channels are weighed by `mix_weight`, the alpha by `w` itself.
    pub open spec fn mix(self, other: RgbaModel, w: int) -> RgbaModel {
        let weight = mix_weight(w, self.a, other.a);
        RgbaModel {
            r: mix_channel(self.r, other.r, weight),
            g: mix_channel(self.g, other.g, weight),
            b: mix_channel(self.b, other.b, weight),
            a: mix_channel(self.a, other.a, w),
        }
    }

    /// The mix of `self` with opaque white.
    pub open spec fn tint(self, w: int) -> RgbaModel {
        self.mix(RgbaModel { r: 255, g: 255, b: 255, a: 255 }, w)
    }

    /// The mix of `self` with opaque black.
    pub open spec fn shade(self, w: int) -> RgbaModel {
        self.mix(RgbaModel { r: 0, g: 0, b: 0, a: 255 }, w)
    }
}

impl HslaModel {
    /// Whether the hue is in range and every other channel is a magnitude.
    pub open spec fn valid(self) -> bool {
        0 <= self.h < 360 && is_magnitude(self.s) && is_magnitude(self.l) && is_magnitude(self.a)
    }

    /// The color without its alpha.
    pub open spec fn opaque(self) -> HslModel {
        HslModel { h: self.h, s: self.s, l: self.l }
    }

    /// The color itself.
    pub open spec fn to_hsla(self) -> HslaModel {
        self
    }

    /// The color in the RGB model. Without saturation every channel is the
    /// lightness; else red, green and blue stand a third of a turn ahead of
    /// the hue, at it, and a third of a turn behind. The alpha passes through.
    pub open spec fn to_rgba(self) -> RgbaModel {
        if self.s == 0 {
            RgbaModel { r: self.l, g: self.l, b: self.l, a: self.a }
        } else {
            RgbaModel {
                r: channel_of(wrap(self.h + 120), self.s, self.l),
                g: channel_of(self.h, self.s, self.l),
                b: channel_of(wrap(self.h - 120), self.s, self.l),
                a: self.a,
            }
        }
    }

    /// The color with `amount` more saturation, at most the whole.
    pub open spec fn saturate(self, amount: int) -> HslaModel {
        HslaModel { h: self.h, s: clamped_sum(self.s, amount), l: self.l, a: self.a }
    }

    /// The color with `amount` less saturation, at least none.
    pub open spec fn desaturate(self, amount: int) -> HslaModel {
        HslaModel { h: self.h, s: clamped_difference(self.s, amount), l: self.l, a: self.a }
    }

    /// The color with `amount` more lightness, at most the whole.
    pub open spec fn lighten(self, amount: int) -> HslaModel {
        HslaModel { h: self.h, s: self.s, l: clamped_sum(self.l, amount), a: self.a }
    }

    /// The color with `amount` less lightness, at least none.
    pub open spec fn darken(self, amount: int) -> HslaModel {
        HslaModel { h: self.h, s: self.s, l: clamped_difference(self.l, amount), a: self.a }
    }

    /// The color with the alpha `a`.
    pub open spec fn fade(self, a: int) -> HslaModel {
        HslaModel { h: self.h, s: self.s, l: self.l, a }
    }

    /// The color with its hue turned by `amount` degrees.
    pub open spec fn spin(self, amount: int) -> HslaModel {
        HslaModel { h: wrap(self.h + amount), s: self.s, l: self.l, a: self.a }
    }

    /// The color without saturation.
    pub open spec fn greyscale(self) -> HslaModel {
        HslaModel { h: self.h, s: 0, l: self.l, a: self.a }
    }
}

/// The two levels of a color lie in order between nothing and the whole.
pub proof fn lemma_levels(s: int, l: int)
    requires
        is_magnitude(s),
        is_magnitude(l),
    ensures
        0 <= lower_level(s, l) <= upper_level(s, l) <= 65025,
{
    assert(0 <= lower_level(s, l) <= upper_level(s, l) <= 65025) by (nonlinear_arith)
        requires
            0 <= s <= 255,
            0 <= l <= 255,
            upper_level(s, l) == (if 2 * l < 255 {
                l * (255 + s)
            } else {
                255 * l + 255 * s - l * s
            }),
            lower_level(s, l) == 510 * l - upper_level(s, l),
    {
        assert(0 <= l * s <= 255 * l);
        assert(0 <= (255 - l) * s <= 255 * (255 - l));
        assert((255 - l) * s == 255 * s - l * s);
    }
}

/// The level of a channel lies between the two levels, so the channel is a magnitude.
pub proof fn lemma_channel_level(position: int, upper: int, lower: int)
    requires
        0 <= position < 360,
        0 <= lower <= upper <= 65025,
    ensures
        60 * lower <= channel_level(position, upper, lower) <= 60 * upper,
        0 <= round_div(channel_level(position, upper, lower), 15300) <= 255,
{
    let level = channel_level(position, upper, lower);
    assert(60 * lower <= level <= 60 * upper) by (nonlinear_arith)
        requires
            0 <= position < 360,
            0 <= lower <= upper,
            level == channel_level(position, upper, lower),
    {
        if position > 180 && position <= 240 {
            assert(0 <= (upper - lower) * (240 - position) <= (upper - lower) * 60);
        }
        if position <= 60 {
            assert(0 <= (upper - lower) * position <= (upper - lower) * 60);
        }
    }
    crate::rounding::lemma_round_div_bounds(level, 15300, 255);
}

/// The combined weight of a mix is a magnitude, and its divisor is positive.
pub proof fn lemma_mix_weight(w: int, left_alpha: int, right_alpha: int)
    requires
        is_magnitude(w),
        is_magnitude(left_alpha),
        is_magnitude(right_alpha),
    ensures
        -65025 <= (2 * w - 255) * (left_alpha - right_alpha) <= 65025,
        0 <= w * (255 + (left_alpha - right_alpha)) <= 65025 + (2 * w - 255) * (left_alpha
            - right_alpha),
        is_magnitude(mix_weight(w, left_alpha, right_alpha)),
{
    let p = 2 * w - 255;
    let q = left_alpha - right_alpha;
    assert(-65025 <= p * q <= 65025 && 0 <= w * (255 + q) <= 65025 + p * q) by (nonlinear_arith)
        requires
            -255 <= p <= 255,
            -255 <= q <= 255,
            p == 2 * w - 255,
            0 <= w <= 255,
    {
        assert((255 - p) * (255 - q) >= 0);
        assert((255 + p) * (255 + q) >= 0);
        assert((255 - p) * (255 + q) >= 0);
        assert((255 + p) * (255 - q) >= 0);
        assert((255 - w) * (255 - q) >= 0);
        assert(w * (255 + q) >= 0);
        assert((255 - w) * (255 - q) == 65025 - 255 * q - 255 * w + w * q);
        assert((2 * w - 255) * q == 2 * (w * q) - 255 * q);
        assert(w * (255 + q) == 255 * w + w * q);
    }
    if p * q != -65025 {
        let d = 65025 + p * q;
        let n = w * (255 + q);
        assert(255 * n <= 255 * d);
        crate::rounding::lemma_round_div_bounds(255 * n, d, 255);
    }
}

} // verus!
