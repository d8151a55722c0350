//! How close a color comes back from the HSL model.
//!
//! The hue is kept in whole degrees and the saturation and lightness in bytes,
//! so a color does not always come back as it went in. Every channel comes
//! back at most two units lower and at most three units higher; the greatest
//! and the least channel come back as they were or one unit higher.

use vstd::prelude::*;
use crate::angle::wrap;
use crate::model::{
    channel_level, greatest, hue_of, least, lemma_levels, lightness_of, lower_level,
    saturation_of, upper_level, RgbModel, RgbaModel,
};
use crate::rounding::{lemma_round_div_between, lemma_round_div_error, round_div};

verus! {

/// The hue of a color lies in the third of the wheel of its greatest channel
/// and opposite the third of its least channel.
proof fn lemma_hue_sector(r: int, g: int, b: int)
    requires
        0 <= r <= 255,
        0 <= g <= 255,
        0 <= b <= 255,
        !(r == g && g == b),
    ensures
        0 <= hue_of(r, g, b) < 360,
        r == greatest(r, g, b) ==> hue_of(r, g, b) <= 60 || hue_of(r, g, b) >= 300,
        g == greatest(r, g, b) ==> 60 <= hue_of(r, g, b) <= 180,
        b == greatest(r, g, b) ==> 180 <= hue_of(r, g, b) <= 300,
        r == least(r, g, b) ==> 120 <= hue_of(r, g, b) <= 240,
        g == least(r, g, b) ==> hue_of(r, g, b) >= 240 || hue_of(r, g, b) == 0,
        b == least(r, g, b) ==> hue_of(r, g, b) <= 120,
{
    let high = greatest(r, g, b);
    let low = least(r, g, b);
    let spread = high - low;
    if high == r {
        if g >= b {
            // From 0, where green is least, to 60, where green is greatest.
            let k = round_div(60 * (g - b), spread);
            if g == b {
                lemma_round_div_between(60 * (g - b), spread, 0, 0);
            } else if g == r {
                lemma_round_div_between(60 * (g - b), spread, 60, 60);
            } else {
                lemma_round_div_between(60 * (g - b), spread, 0, 60);
            }
            assert(0 <= k <= 60);
            assert(hue_of(r, g, b) == wrap(k));
            assert(hue_of(r, g, b) == k);
        } else {
            // From 300, where blue is greatest, towards the full turn.
            let k = round_div(60 * (b - g), spread);
            if b == r {
                lemma_round_div_between(60 * (b - g), spread, 60, 60);
            } else {
                lemma_round_div_between(60 * (b - g), spread, 0, 60);
            }
            assert(0 <= k <= 60);
            assert(-2 * (60 * (g - b)) == 2 * (60 * (b - g)));
            assert(round_div(60 * (g - b), spread) == -k);
            assert(hue_of(r, g, b) == wrap(-k));
            assert(k == 0 ==> hue_of(r, g, b) == 0);
            assert(k > 0 ==> hue_of(r, g, b) == 360 - k);
        }
    } else if high == g {
        let n = 120 * spread + 60 * (b - r);
        let k = round_div(n, spread);
        if b == g {
            lemma_round_div_between(n, spread, 180, 180);
        } else if b == r {
            lemma_round_div_between(n, spread, 120, 120);
        } else if b > r {
            lemma_round_div_between(n, spread, 120, 180);
        } else {
            lemma_round_div_between(n, spread, 60, 120);
        }
        assert(60 <= k <= 180);
        assert(hue_of(r, g, b) == wrap(k));
        assert(hue_of(r, g, b) == k);
    } else {
        let n = 240 * spread + 60 * (r - g);
        let k = round_div(n, spread);
        if r == g {
            lemma_round_div_between(n, spread, 240, 240);
        } else if r > g {
            lemma_round_div_between(n, spread, 240, 300);
        } else {
            lemma_round_div_between(n, spread, 180, 240);
        }
        assert(180 <= k <= 300);
        assert(hue_of(r, g, b) == wrap(k));
        assert(hue_of(r, g, b) == k);
    }
}

/// How far along the straight line from the lower to the upper level the
/// channel at `position` degrees stands, in sixtieths.
pub open spec fn line_point(position: int) -> int {
    if position > 240 {
        0
    } else if position > 180 {
        240 - position
    } else if position > 60 {
        60
    } else {
        position
    }
}

/// The level of a channel is the point of the line that `line_point` names.
proof fn lemma_channel_on_line(position: int, upper: int, lower: int)
    requires
        0 <= position < 360,
    ensures
        0 <= line_point(position) <= 60,
        channel_level(position, upper, lower) == 60 * lower + (upper - lower) * line_point(
            position,
        ),
{
    let span = upper - lower;
    let k = line_point(position);
    assert(k == 60 ==> span * k == 60 * upper - 60 * lower) by (nonlinear_arith)
        requires
            span == upper - lower,
    ;
    assert(k == 0 ==> span * k == 0) by (nonlinear_arith);
}

/// The point of the line at which each channel stands after the hue is
/// taken is, within the rounding of the hue, as far along the line as the
/// channel is from the least to the greatest channel.
proof fn lemma_points(r: int, g: int, b: int)
    requires
        0 <= r <= 255,
        0 <= g <= 255,
        0 <= b <= 255,
        !(r == g && g == b),
    ensures
        ({
            let h = hue_of(r, g, b);
            let low = least(r, g, b);
            let spread = greatest(r, g, b) - low;
            &&& 0 <= h < 360
            &&& -spread <= 2 * (spread * line_point(wrap(h + 120))) - 120 * (r - low) <= spread
            &&& -spread <= 2 * (spread * line_point(h)) - 120 * (g - low) <= spread
            &&& -spread <= 2 * (spread * line_point(wrap(h - 120))) - 120 * (b - low) <= spread
        }),
{
    let high = greatest(r, g, b);
    let low = least(r, g, b);
    let spread = high - low;
    let h = hue_of(r, g, b);
    lemma_hue_sector(r, g, b);
    let pr = line_point(wrap(h + 120));
    let pg = line_point(h);
    let pb = line_point(wrap(h - 120));
    assert(spread * 0 == 0 && spread * 60 == 60 * spread) by (nonlinear_arith);
    if high == r {
        if g >= b {
            let k = round_div(60 * (g - b), spread);
            lemma_round_div_between(60 * (g - b), spread, 0, 60);
            lemma_round_div_error(60 * (g - b), spread);
            assert(h == wrap(k));
            assert(pr == 60 && pg == k && pb == 0);
        } else {
            let k = round_div(60 * (b - g), spread);
            lemma_round_div_between(60 * (b - g), spread, 0, 60);
            lemma_round_div_error(60 * (b - g), spread);
            assert(-2 * (60 * (g - b)) == 2 * (60 * (b - g)));
            assert(round_div(60 * (g - b), spread) == -k);
            assert(h == wrap(-k));
            assert(pr == 60 && pg == 0 && pb == k);
        }
    } else if high == g {
        let n = 120 * spread + 60 * (b - r);
        let k = round_div(n, spread);
        lemma_round_div_between(n, spread, 60, 180);
        lemma_round_div_error(n, spread);
        assert(h == wrap(k));
        if b >= r {
            lemma_round_div_between(n, spread, 120, 180);
            assert(pg == 60 && pb == k - 120 && pr == 0);
            assert(spread * (k - 120) == spread * k - 120 * spread) by (nonlinear_arith);
        } else {
            lemma_round_div_between(n, spread, 60, 120);
            assert(pg == 60 && pr == 120 - k && pb == 0);
            assert(spread * (120 - k) == 120 * spread - spread * k) by (nonlinear_arith);
        }
    } else {
        let n = 240 * spread + 60 * (r - g);
        let k = round_div(n, spread);
        lemma_round_div_between(n, spread, 180, 300);
        lemma_round_div_error(n, spread);
        assert(h == wrap(k));
        if r >= g {
            lemma_round_div_between(n, spread, 240, 300);
            assert(pb == 60 && pr == k - 240 && pg == 0);
            assert(spread * (k - 240) == spread * k - 240 * spread) by (nonlinear_arith);
        } else {
            lemma_round_div_between(n, spread, 180, 240);
            assert(pb == 60 && pg == 240 - k && pr == 0);
            assert(spread * (240 - k) == 240 * spread - spread * k) by (nonlinear_arith);
        }
    }
}

/// The line between the two levels of a color runs, within the rounding of
/// the saturation and the lightness, from its least to its greatest channel.
proof fn lemma_line(high: int, low: int, k: int)
    requires
        0 <= low < high <= 255,
        0 <= k <= 60,
    ensures
        ({
            let s = saturation_of(high, low);
            let l = lightness_of(high, low);
            let upper = upper_level(s, l);
            let lower = lower_level(s, l);
            let level = 60 * lower + (upper - lower) * k;
            &&& 1 <= s <= 255
            &&& 0 <= l <= 255
            &&& 0 <= level
            &&& 61200 * low + 1020 * ((high - low) * k) - 15300 <= 4 * level
            &&& 4 * level <= 61200 * low + 1020 * ((high - low) * k) + 76500
        }),
{
    let sum = high + low;
    let spread = high - low;
    let room = if sum < 255 {
        sum
    } else {
        510 - sum
    };
    let s = saturation_of(high, low);
    let l = lightness_of(high, low);
    let upper = upper_level(s, l);
    let lower = lower_level(s, l);
    let level = 60 * lower + (upper - lower) * k;
    lemma_round_div_between(sum, 2, 0, 255);
    lemma_round_div_error(sum, 2);
    lemma_round_div_between(255 * spread, room, 1, 255);
    lemma_round_div_error(255 * spread, room);
    lemma_levels(s, l);
    let e = 2 * l - sum;
    let p = l * s;
    let sigma = 2 * (room * s) - 510 * spread;
    let es = e * s;
    assert((e == 0 ==> es == 0) && (e == 1 ==> es == s)) by (nonlinear_arith)
        requires
            es == e * s,
    ;
    assert(0 <= level) by (nonlinear_arith)
        requires
            level == 60 * lower + (upper - lower) * k,
            0 <= lower <= upper,
            0 <= k,
    ;
    // The tilt of the line by the rounding of the saturation, and the lift of
    // the line by the rounding of the lightness.
    let tilt = (2 * k - 60) * sigma;
    let lift = (4 * k - 120) * es;
    assert(-15300 <= tilt <= 15300) by (nonlinear_arith)
        requires
            tilt == (2 * k - 60) * sigma,
            0 <= k <= 60,
            -255 <= sigma <= 255,
    ;
    assert(-30600 <= lift <= 30600 && (es == 0 ==> lift == 0)) by (nonlinear_arith)
        requires
            lift == (4 * k - 120) * es,
            0 <= k <= 60,
            0 <= es <= 255,
    ;
    assert(0 <= e <= 1);
    assert(1 <= s <= 255);
    assert(0 <= l <= 255);
    if sum < 255 {
        assert(upper == 255 * l + p && lower == 255 * l - p) by (nonlinear_arith)
            requires
                upper == l * (255 + s),
                lower == 510 * l - upper,
                p == l * s,
        ;
        assert(2 * p == sum * s + es) by (nonlinear_arith)
            requires
                p == l * s,
                es == e * s,
                e == 2 * l - sum,
        ;
        assert(4 * level == 61200 * low + 1020 * (spread * k) + 30600 * e + lift + tilt)
            by (nonlinear_arith)
            requires
                level == 60 * lower + (upper - lower) * k,
                upper == 255 * l + p,
                lower == 255 * l - p,
                2 * p == sum * s + es,
                2 * l == sum + e,
                sigma == 2 * (sum * s) - 510 * spread,
                sum == high + low,
                spread == high - low,
                tilt == (2 * k - 60) * sigma,
                lift == (4 * k - 120) * es,
        ;
    } else {
        assert(upper == 255 * l + 255 * s - p && lower == 255 * l - 255 * s + p);
        assert(2 * p == 510 * s - room * s + es) by (nonlinear_arith)
            requires
                p == l * s,
                es == e * s,
                e == 2 * l - sum,
                room == 510 - sum,
        ;
        assert(4 * level == 61200 * low + 1020 * (spread * k) + 30600 * e - lift + tilt)
            by (nonlinear_arith)
            requires
                level == 60 * lower + (upper - lower) * k,
                upper == 255 * l + 255 * s - p,
                lower == 255 * l - 255 * s + p,
                2 * p == 510 * s - room * s + es,
                2 * l == sum + e,
                sigma == 2 * (room * s) - 510 * spread,
                room == 510 - sum,
                sum == high + low,
                spread == high - low,
                tilt == (2 * k - 60) * sigma,
                lift == (4 * k - 120) * es,
        ;
    }
}

/// Every channel of a color comes back from the HSL model at most two units
/// lower and at most three units higher than it went in; the alpha comes
/// back as it was.
pub proof fn lemma_round_trip_close(c: RgbaModel)
    requires
        c.valid(),
    ensures
        ({
            let d = c.to_hsla().to_rgba();
            &&& d.a == c.a
            &&& c.r - 2 <= d.r <= c.r + 3
            &&& c.g - 2 <= d.g <= c.g + 3
            &&& c.b - 2 <= d.b <= c.b + 3
        }),
{
    if !c.achromatic() {
        let high = greatest(c.r, c.g, c.b);
        let low = least(c.r, c.g, c.b);
        let spread = high - low;
        let h = c.to_hsla();
        let upper = upper_level(h.s, h.l);
        let lower = lower_level(h.s, h.l);
        lemma_points(c.r, c.g, c.b);
        let pr = wrap(h.h + 120);
        let pg = h.h;
        let pb = wrap(h.h - 120);
        lemma_channel_on_line(pr, upper, lower);
        lemma_channel_on_line(pg, upper, lower);
        lemma_channel_on_line(pb, upper, lower);
        lemma_line(high, low, line_point(pr));
        lemma_line(high, low, line_point(pg));
        lemma_line(high, low, line_point(pb));
        lemma_round_div_error(channel_level(pr, upper, lower), 15300);
        lemma_round_div_error(channel_level(pg, upper, lower), 15300);
        lemma_round_div_error(channel_level(pb, upper, lower), 15300);
        let d = h.to_rgba();
        assert(d.r == round_div(channel_level(pr, upper, lower), 15300));
        assert(d.g == round_div(channel_level(pg, upper, lower), 15300));
        assert(d.b == round_div(channel_level(pb, upper, lower), 15300));
    }
}

/// Which of the two levels the three channels of a hue stand at: red is at
/// the upper level within a sixth of a turn of 0 and at the lower from 120 to
/// 240, green and blue likewise a third and two thirds of a turn further on.
proof fn lemma_levels_by_sector(h: int, upper: int, lower: int)
    requires
        0 <= h < 360,
    ensures
        h <= 60 || h >= 300 ==> channel_level(wrap(h + 120), upper, lower) == 60 * upper,
        60 <= h <= 180 ==> channel_level(h, upper, lower) == 60 * upper,
        180 <= h <= 300 ==> channel_level(wrap(h - 120), upper, lower) == 60 * upper,
        120 <= h <= 240 ==> channel_level(wrap(h + 120), upper, lower) == 60 * lower,
        h >= 240 || h == 0 ==> channel_level(h, upper, lower) == 60 * lower,
        h <= 120 ==> channel_level(wrap(h - 120), upper, lower) == 60 * lower,
{
    lemma_channel_on_line(wrap(h + 120), upper, lower);
    lemma_channel_on_line(h, upper, lower);
    lemma_channel_on_line(wrap(h - 120), upper, lower);
    let span = upper - lower;
    assert(span * 0 == 0 && span * 60 == 60 * upper - 60 * lower) by (nonlinear_arith)
        requires
            span == upper - lower,
    ;
}

/// The two levels of a color come out as its greatest and its least channel,
/// or one unit higher.
proof fn lemma_ends_of_line(high: int, low: int)
    requires
        0 <= low < high <= 255,
    ensures
        ({
            let s = saturation_of(high, low);
            let l = lightness_of(high, low);
            &&& high <= round_div(60 * upper_level(s, l), 15300) <= high + 1
            &&& low <= round_div(60 * lower_level(s, l), 15300) <= low + 1
        }),
{
    let s = saturation_of(high, low);
    let l = lightness_of(high, low);
    let upper = upper_level(s, l);
    let lower = lower_level(s, l);
    let spread = high - low;
    lemma_line(high, low, 0);
    lemma_line(high, low, 60);
    assert(spread * 0 == 0 && spread * 60 == 60 * spread) by (nonlinear_arith);
    assert((upper - lower) * 0 == 0 && (upper - lower) * 60 == 60 * upper - 60 * lower)
        by (nonlinear_arith);
    lemma_round_div_error(60 * upper, 15300);
    lemma_round_div_error(60 * lower, 15300);
}

/// The greatest and the least channel of a color come back from the HSL
/// model as they were or one unit higher, and so does every channel of a
/// color whose channels take only two values.
pub proof fn lemma_round_trip_extremes(c: RgbaModel)
    requires
        c.valid(),
    ensures
        ({
            let d = c.to_hsla().to_rgba();
            let high = greatest(c.r, c.g, c.b);
            let low = least(c.r, c.g, c.b);
            &&& (c.r == high || c.r == low) ==> c.r <= d.r <= c.r + 1
            &&& (c.g == high || c.g == low) ==> c.g <= d.g <= c.g + 1
            &&& (c.b == high || c.b == low) ==> c.b <= d.b <= c.b + 1
        }),
{
    if !c.achromatic() {
        let high = greatest(c.r, c.g, c.b);
        let low = least(c.r, c.g, c.b);
        let h = c.to_hsla();
        let upper = upper_level(h.s, h.l);
        let lower = lower_level(h.s, h.l);
        lemma_hue_sector(c.r, c.g, c.b);
        lemma_levels_by_sector(h.h, upper, lower);
        lemma_ends_of_line(high, low);
        lemma_line(high, low, 0);
        let d = h.to_rgba();
        assert(d.r == round_div(channel_level(wrap(h.h + 120), upper, lower), 15300));
        assert(d.g == round_div(channel_level(h.h, upper, lower), 15300));
        assert(d.b == round_div(channel_level(wrap(h.h - 120), upper, lower), 15300));
    }
}

/// An opaque color comes back from the opaque HSL model as close as a color
/// with an alpha does.
pub proof fn lemma_opaque_round_trip_close(c: RgbModel)
    requires
        c.valid(),
    ensures
        ({
            let d = c.to_hsla().opaque().to_rgba().opaque();
            &&& c.r - 2 <= d.r <= c.r + 3
            &&& c.g - 2 <= d.g <= c.g + 3
            &&& c.b - 2 <= d.b <= c.b + 3
        }),
{
    lemma_round_trip_close(c.to_rgba());
}

} // verus!
