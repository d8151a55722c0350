//! What holds of the conversions and operations for every color.

use vstd::prelude::*;
use crate::angle::wrap;
use crate::model::{
    greatest, least, lemma_channel_level, lemma_levels, lemma_mix_weight, lower_level,
    mix_channel, mix_weight, upper_level, HslModel, HslaModel, RgbModel, RgbaModel,
};
use crate::ratio::{clamped_difference, lemma_product_bound, scaled_product};
use crate::rounding::{lemma_round_div_bounds, lemma_round_div_exact, round_div};

verus! {

/// Every color has a color in the HSL model: the hue comes out in range, the
/// saturation and the lightness within the whole.
pub proof fn lemma_to_hsla_valid(c: RgbaModel)
    requires
        c.valid(),
    ensures
        c.to_hsla().valid(),
        c.to_hsla().a == c.a,
{
    if !c.achromatic() {
        let high = greatest(c.r, c.g, c.b);
        let low = least(c.r, c.g, c.b);
        lemma_round_div_bounds(high + low, 2, 255);
        if high + low < 255 {
            lemma_round_div_bounds(255 * (high - low), high + low, 255);
        } else {
            lemma_round_div_bounds(255 * (high - low), 510 - (high + low), 255);
        }
    }
}

/// Every color has a color in the RGB model: each channel comes out within
/// the whole.
pub proof fn lemma_to_rgba_valid(c: HslaModel)
    requires
        c.valid(),
    ensures
        c.to_rgba().valid(),
        c.to_rgba().a == c.a,
{
    if c.s != 0 {
        let upper = upper_level(c.s, c.l);
        let lower = lower_level(c.s, c.l);
        lemma_levels(c.s, c.l);
        lemma_channel_level(wrap(c.h + 120), upper, lower);
        lemma_channel_level(c.h, upper, lower);
        lemma_channel_level(wrap(c.h - 120), upper, lower);
    }
}

/// Every channel of a mix is a magnitude.
pub proof fn lemma_mix_valid(left: RgbaModel, right: RgbaModel, w: int)
    requires
        left.valid(),
        right.valid(),
        0 <= w <= 255,
    ensures
        left.mix(right, w).valid(),
{
    lemma_mix_weight(w, left.a, right.a);
    let weight = mix_weight(w, left.a, right.a);
    let rest = clamped_difference(255, weight);
    lemma_product_bound(left.r, weight);
    lemma_product_bound(left.g, weight);
    lemma_product_bound(left.b, weight);
    lemma_product_bound(right.r, rest);
    lemma_product_bound(right.g, rest);
    lemma_product_bound(right.b, rest);
    lemma_product_bound(left.a, w);
    lemma_product_bound(right.a, clamped_difference(255, w));
}

/// The editing operations of the HSL model keep a color valid, whatever the
/// amount and the turn.
pub proof fn lemma_edits_valid(c: HslaModel, amount: int, turn: int)
    requires
        c.valid(),
        0 <= amount <= 255,
    ensures
        c.saturate(amount).valid(),
        c.desaturate(amount).valid(),
        c.lighten(amount).valid(),
        c.darken(amount).valid(),
        c.fade(amount).valid(),
        c.spin(turn).valid(),
        c.greyscale().valid(),
{
}

/// Giving an opaque color the whole alpha and taking it away again changes
/// nothing, in either model.
pub proof fn lemma_opaque_round_trip(c: RgbModel, d: HslModel)
    ensures
        c.to_rgba().opaque() == c,
        d.to_hsla().opaque() == d,
{
}

/// Taking the alpha away from a color with the whole alpha and giving it
/// back changes nothing, in either model.
pub proof fn lemma_whole_alpha_round_trip(c: RgbaModel, d: HslaModel)
    requires
        c.a == 255,
        d.a == 255,
    ensures
        c.opaque().to_rgba() == c,
        d.opaque().to_hsla() == d,
{
}

/// A grey comes back from the HSL model as it went in, and the alpha of any
/// color does.
pub proof fn lemma_grey_round_trip(c: RgbaModel)
    ensures
        c.achromatic() ==> c.to_hsla().to_rgba() == c,
        c.to_hsla().to_rgba().a == c.a,
{
}

/// A color without saturation comes back from the RGB model with the same
/// lightness and alpha, and with hue and saturation zero.
pub proof fn lemma_unsaturated_round_trip(c: HslaModel)
    requires
        c.s == 0,
    ensures
        c.to_rgba().to_hsla() == (HslaModel { h: 0, s: 0, l: c.l, a: c.a }),
{
}

/// Converting to RGB twice is converting once.
pub proof fn lemma_to_rgb_idempotent(c: RgbaModel)
    ensures
        c.opaque().to_rgba().opaque() == c.opaque(),
{
}

/// Removing the saturation twice is removing it once, in the HSL model and,
/// through it, in the RGB model.
pub proof fn lemma_greyscale_idempotent(c: HslaModel, d: RgbaModel)
    ensures
        c.greyscale().greyscale() == c.greyscale(),
        d.to_hsla().greyscale().to_rgba().to_hsla().greyscale().to_rgba()
            == d.to_hsla().greyscale().to_rgba(),
{
}

/// Setting the alpha twice to the same value is setting it once.
pub proof fn lemma_fade_idempotent(c: RgbaModel, d: HslaModel, a: int)
    ensures
        c.fade(a).fade(a) == c.fade(a),
        d.fade(a).fade(a) == d.fade(a),
{
}

/// A channel scaled by the whole is itself, and scaled by nothing is nothing.
pub proof fn lemma_scale_by_whole_and_nothing(x: int)
    requires
        0 <= x <= 255,
    ensures
        scaled_product(x, 255) == x,
        scaled_product(x, 0) == 0,
{
    lemma_round_div_exact(x, 255);
    assert(x * 255 == 255 * x);
    assert(x * 0 == 0);
    lemma_round_div_bounds(0, 255, 0);
}

/// With the whole weight the channels of the left color weigh the whole, with
/// no weight they weigh nothing, whatever the two alphas.
pub proof fn lemma_mix_weight_at_the_ends(left_alpha: int, right_alpha: int)
    requires
        0 <= left_alpha <= 255,
        0 <= right_alpha <= 255,
    ensures
        mix_weight(255, left_alpha, right_alpha) == 255,
        mix_weight(0, left_alpha, right_alpha) == 0,
{
    let q = left_alpha - right_alpha;
    if 255 * q != -65025 {
        let d = 255 + q;
        assert(255 * (255 * d) == 255 * (65025 + 255 * q));
        lemma_round_div_exact(255, 65025 + 255 * q);
        assert(round_div(255 * (255 * (255 + q)), 65025 + 255 * q) == 255);
    }
    if (-255) * q != -65025 {
        assert(0 * (255 + q) == 0);
        lemma_round_div_bounds(0, 65025 + (-255) * q, 0);
    }
}

/// One channel of a mix is the left channel at the whole weight and the right
/// channel at no weight.
pub proof fn lemma_mix_channel_at_the_ends(left: int, right: int)
    requires
        0 <= left <= 255,
        0 <= right <= 255,
    ensures
        mix_channel(left, right, 255) == left,
        mix_channel(left, right, 0) == right,
{
    lemma_scale_by_whole_and_nothing(left);
    lemma_scale_by_whole_and_nothing(right);
}

/// The mix of two colors with the whole alpha has the whole alpha, whatever
/// the weight: tints and shades of an opaque color are opaque.
pub proof fn lemma_mix_of_opaque_is_opaque(left: RgbaModel, right: RgbaModel, w: int)
    requires
        0 <= w <= 255,
        left.a == 255,
        right.a == 255,
    ensures
        left.mix(right, w).a == 255,
        left.tint(w).a == 255,
        left.shade(w).a == 255,
{
    lemma_round_div_exact(w, 255);
    lemma_round_div_exact(255 - w, 255);
    assert(255 * w == w * 255);
    assert(255 * (255 - w) == (255 - w) * 255);
}

/// Mixing with the whole weight gives the left color, mixing with no weight
/// gives the right color, alpha included.
pub proof fn lemma_mix_at_the_ends(left: RgbaModel, right: RgbaModel)
    requires
        left.valid(),
        right.valid(),
    ensures
        left.mix(right, 255) == left,
        left.mix(right, 0) == right,
{
    lemma_mix_weight_at_the_ends(left.a, right.a);
    lemma_mix_channel_at_the_ends(left.r, right.r);
    lemma_mix_channel_at_the_ends(left.g, right.g);
    lemma_mix_channel_at_the_ends(left.b, right.b);
    lemma_mix_channel_at_the_ends(left.a, right.a);
}

/// Mixing in the HSL model with the whole weight gives the left color as it
/// comes back from the RGB model, and with no weight the right color.
pub proof fn lemma_mix_at_the_ends_through_hsl(left: HslaModel, right: HslaModel)
    requires
        left.valid(),
        right.valid(),
    ensures
        left.to_rgba().mix(right.to_rgba(), 255).to_hsla() == left.to_rgba().to_hsla(),
        left.to_rgba().mix(right.to_rgba(), 0).to_hsla() == right.to_rgba().to_hsla(),
{
    lemma_to_rgba_valid(left);
    lemma_to_rgba_valid(right);
    lemma_mix_at_the_ends(left.to_rgba(), right.to_rgba());
}

} // verus!
