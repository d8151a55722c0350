//! Colors in the RGB model, opaque and with an alpha.

use vstd::prelude::*;
use vstd::string::*;
use crate::angle::Angle;
use crate::color::{Canonical, Color};
use crate::css::{push_close, push_decimal, push_hundredths, push_separator, rgb_text, rgba_text};
use crate::hsl::{HSL, HSLA};
use crate::laws::lemma_mix_of_opaque_is_opaque;
use crate::model::{lemma_mix_weight, HslaModel, RgbModel, RgbaModel};
use crate::ratio::{clamped_difference, clamped_sum, Ratio};
use crate::rounding::{lemma_round_div_bounds, round_div_u32};

verus! {

/// The opaque color of the red, green and blue magnitudes.
pub fn rgb(r: u8, g: u8, b: u8) -> (c: RGB)
    ensures
        c@ == (RgbModel { r: r as int, g: g as int, b: b as int }),
{
    RGB::new(r, g, b)
}

/// The color of the red, green, blue and alpha magnitudes.
pub fn rgba(r: u8, g: u8, b: u8, a: u8) -> (c: RGBA)
    ensures
        c@ == (RgbaModel { r: r as int, g: g as int, b: b as int, a: a as int }),
{
    RGBA::new(r, g, b, a)
}

/// How much red, green and blue make up an opaque color.
#[derive(Debug, Copy, Clone, PartialEq, Structural)]
pub struct RGB {
    /// Red.
    pub r: Ratio,
    /// Green.
    pub g: Ratio,
    /// Blue.
    pub b: Ratio,
}

/// How much red, green and blue make up a color, and how opaque it is.
#[derive(Debug, Copy, Clone, PartialEq, Structural)]
pub struct RGBA {
    /// Red.
    pub r: Ratio,
    /// Green.
    pub g: Ratio,
    /// Blue.
    pub b: Ratio,
    /// Alpha.
    pub a: Ratio,
}

impl View for RGB {
    type V = RgbModel;

    open spec fn view(&self) -> RgbModel {
        RgbModel { r: self.r@, g: self.g@, b: self.b@ }
    }
}

impl View for RGBA {
    type V = RgbaModel;

    open spec fn view(&self) -> RgbaModel {
        RgbaModel { r: self.r@, g: self.g@, b: self.b@, a: self.a@ }
    }
}

impl RGB {
    /// The opaque color of the red, green and blue magnitudes.
    pub fn new(r: u8, g: u8, b: u8) -> (c: RGB)
        ensures
            c@ == (RgbModel { r: r as int, g: g as int, b: b as int }),
    {
        RGB { r: Ratio::from_u8(r), g: Ratio::from_u8(g), b: Ratio::from_u8(b) }
    }
}

impl RGBA {
    /// The color of the red, green, blue and alpha magnitudes.
    pub fn new(r: u8, g: u8, b: u8, a: u8) -> (c: RGBA)
        ensures
            c@ == (RgbaModel { r: r as int, g: g as int, b: b as int, a: a as int }),
    {
        RGBA {
            r: Ratio::from_u8(r),
            g: Ratio::from_u8(g),
            b: Ratio::from_u8(b),
            a: Ratio::from_u8(a),
        }
    }
}

impl RGB {
    /// The color in CSS notation, such as `rgb(250, 128, 114)`.
    pub fn to_css(self) -> (text: String)
        ensures
            text@ == rgb_text(self@),
    {
        proof {
            reveal_strlit("rgb(");
        }
        let mut text: String = String::from_str("rgb(");
        assert(text@ =~= seq!['r', 'g', 'b', '(']);
        push_decimal(&mut text, self.r.as_u8() as u16);
        push_separator(&mut text);
        push_decimal(&mut text, self.g.as_u8() as u16);
        push_separator(&mut text);
        push_decimal(&mut text, self.b.as_u8() as u16);
        push_close(&mut text);
        text
    }

    /// The color itself.
    pub fn to_rgb(self) -> (c: RGB)
        ensures
            c == self,
    {
        self
    }

    /// The color with the whole alpha.
    pub fn to_rgba(self) -> (c: RGBA)
        ensures
            c@ == self@.to_rgba(),
            c.r == self.r,
            c.g == self.g,
            c.b == self.b,
    {
        RGBA { r: self.r, g: self.g, b: self.b, a: Ratio::from_u8(255) }
    }

    /// The color in the HSL model.
    pub fn to_hsl(self) -> (c: HSL)
        ensures
            c@ == self@.to_hsla().opaque(),
    {
        self.to_rgba().to_hsl()
    }

    /// The color in the HSL model, with the whole alpha.
    pub fn to_hsla(self) -> (c: HSLA)
        ensures
            c@ == self@.to_hsla(),
    {
        self.to_rgba().to_hsla()
    }

    /// The color with `amount` more saturation, at most the whole, changed in the HSL model.
    pub fn saturate(self, amount: Ratio) -> (c: RGB)
        ensures
            c@ == self@.to_hsla().saturate(amount@).to_rgba().opaque(),
    {
        self.to_rgba().saturate(amount).to_rgb()
    }

    /// The color with `amount` less saturation, at least none, changed in the HSL model.
    pub fn desaturate(self, amount: Ratio) -> (c: RGB)
        ensures
            c@ == self@.to_hsla().desaturate(amount@).to_rgba().opaque(),
    {
        self.to_rgba().desaturate(amount).to_rgb()
    }

    /// The color with `amount` more lightness, at most the whole, changed in the HSL model.
    pub fn lighten(self, amount: Ratio) -> (c: RGB)
        ensures
            c@ == self@.to_hsla().lighten(amount@).to_rgba().opaque(),
    {
        self.to_rgba().lighten(amount).to_rgb()
    }

    /// The color with `amount` less lightness, at least none, changed in the HSL model.
    pub fn darken(self, amount: Ratio) -> (c: RGB)
        ensures
            c@ == self@.to_hsla().darken(amount@).to_rgba().opaque(),
    {
        self.to_rgba().darken(amount).to_rgb()
    }

    /// The color itself: an opaque color has no alpha to raise.
    pub fn fadein(self, _amount: Ratio) -> (c: RGB)
        ensures
            c == self,
    {
        self
    }

    /// The color itself: an opaque color has no alpha to lower.
    pub fn fadeout(self, _amount: Ratio) -> (c: RGB)
        ensures
            c == self,
    {
        self
    }

    /// The color with the alpha `amount`.
    pub fn fade(self, amount: Ratio) -> (c: RGBA)
        ensures
            c@ == self@.with_alpha(amount@),
            c.a == amount,
    {
        self.to_rgba().fade(amount)
    }

    /// The color with its hue turned by `amount`, changed in the HSL model.
    pub fn spin(self, amount: Angle) -> (c: RGB)
        ensures
            c@ == self@.to_hsla().spin(amount@).to_rgba().opaque(),
    {
        self.to_rgba().spin(amount).to_rgb()
    }

    /// The mix of the color with `other`, the color weighing `weight`: the two are
    /// mixed in the RGB model.
    pub fn mix<T: Canonical>(self, other: T, weight: Ratio) -> (c: RGBA)
        ensures
            c@ == self@.to_rgba().mix(other.as_rgba(), weight@),
    {
        self.to_rgba().mix(other, weight)
    }

    /// The mix of the color with opaque white, the color weighing `weight`.
    pub fn tint(self, weight: Ratio) -> (c: RGB)
        ensures
            c@ == self@.to_rgba().tint(weight@).opaque(),
    {
        self.to_rgba().tint(weight).to_rgb()
    }

    /// The mix of the color with opaque black, the color weighing `weight`.
    pub fn shade(self, weight: Ratio) -> (c: RGB)
        ensures
            c@ == self@.to_rgba().shade(weight@).opaque(),
    {
        self.to_rgba().shade(weight).to_rgb()
    }

    /// The color without saturation, changed in the HSL model.
    pub fn greyscale(self) -> (c: RGB)
        ensures
            c@ == self@.to_hsla().greyscale().to_rgba().opaque(),
    {
        self.to_rgba().greyscale().to_rgb()
    }
}

impl Canonical for RGB {
    open spec fn as_rgba(self) -> RgbaModel {
        self@.to_rgba()
    }

    open spec fn as_hsla(self) -> HslaModel {
        self@.to_hsla()
    }

    fn to_rgba(self) -> (c: RGBA)
        ensures
            c@ == self@.to_rgba(),
            c.r == self.r,
            c.g == self.g,
            c.b == self.b,
    {
        RGB::to_rgba(self)
    }

    fn to_hsla(self) -> (c: HSLA)
        ensures
            c@ == self@.to_hsla(),
    {
        RGB::to_hsla(self)
    }
}

impl Color for RGB {
    type Alpha = RGBA;

    open spec fn has_alpha() -> bool {
        false
    }

    open spec fn css_text(self) -> Seq<char> {
        rgb_text(self@)
    }

    fn to_css(self) -> (text: String)
        ensures
            text@ == rgb_text(self@),
    {
        RGB::to_css(self)
    }

    fn to_rgb(self) -> (c: RGB)
        ensures
            c == self,
    {
        RGB::to_rgb(self)
    }

    fn to_hsl(self) -> (c: HSL)
        ensures
            c@ == self@.to_hsla().opaque(),
    {
        RGB::to_hsl(self)
    }

    fn saturate(self, amount: Ratio) -> (c: RGB)
        ensures
            c@ == self@.to_hsla().saturate(amount@).to_rgba().opaque(),
    {
        RGB::saturate(self, amount)
    }

    fn desaturate(self, amount: Ratio) -> (c: RGB)
        ensures
            c@ == self@.to_hsla().desaturate(amount@).to_rgba().opaque(),
    {
        RGB::desaturate(self, amount)
    }

    fn lighten(self, amount: Ratio) -> (c: RGB)
        ensures
            c@ == self@.to_hsla().lighten(amount@).to_rgba().opaque(),
    {
        RGB::lighten(self, amount)
    }

    fn darken(self, amount: Ratio) -> (c: RGB)
        ensures
            c@ == self@.to_hsla().darken(amount@).to_rgba().opaque(),
    {
        RGB::darken(self, amount)
    }

    fn fadein(self, _amount: Ratio) -> (c: RGB)
        ensures
            c == self,
    {
        RGB::fadein(self, _amount)
    }

    fn fadeout(self, _amount: Ratio) -> (c: RGB)
        ensures
            c == self,
    {
        RGB::fadeout(self, _amount)
    }

    fn fade(self, amount: Ratio) -> (c: RGBA)
        ensures
            c@ == self@.with_alpha(amount@),
            c.a == amount,
    {
        RGB::fade(self, amount)
    }

    fn spin(self, amount: Angle) -> (c: RGB)
        ensures
            c@ == self@.to_hsla().spin(amount@).to_rgba().opaque(),
    {
        RGB::spin(self, amount)
    }

    fn mix<T: Canonical>(self, other: T, weight: Ratio) -> (c: RGBA)
        ensures
            c@ == self@.to_rgba().mix(other.as_rgba(), weight@),
    {
        RGB::mix(self, other, weight)
    }

    fn tint(self, weight: Ratio) -> (c: RGB)
        ensures
            c@ == self@.to_rgba().tint(weight@).opaque(),
    {
        proof {
            weight.lemma_view(weight);
            lemma_mix_of_opaque_is_opaque(
                self.as_rgba(),
                RgbaModel { r: 0, g: 0, b: 0, a: 255 },
                weight@,
            );
        }
        RGB::tint(self, weight)
    }

    fn shade(self, weight: Ratio) -> (c: RGB)
        ensures
            c@ == self@.to_rgba().shade(weight@).opaque(),
    {
        proof {
            weight.lemma_view(weight);
            lemma_mix_of_opaque_is_opaque(
                self.as_rgba(),
                RgbaModel { r: 0, g: 0, b: 0, a: 255 },
                weight@,
            );
        }
        RGB::shade(self, weight)
    }

    fn greyscale(self) -> (c: RGB)
        ensures
            c@ == self@.to_hsla().greyscale().to_rgba().opaque(),
    {
        RGB::greyscale(self)
    }
}

impl RGBA {
    /// The color in CSS notation, such as `rgba(250, 128, 114, 0.50)`.
    pub fn to_css(self) -> (text: String)
        ensures
            text@ == rgba_text(self@),
    {
        proof {
            reveal_strlit("rgba(");
        }
        let mut text: String = String::from_str("rgba(");
        assert(text@ =~= seq!['r', 'g', 'b', 'a', '(']);
        push_decimal(&mut text, self.r.as_u8() as u16);
        push_separator(&mut text);
        push_decimal(&mut text, self.g.as_u8() as u16);
        push_separator(&mut text);
        push_decimal(&mut text, self.b.as_u8() as u16);
        push_separator(&mut text);
        push_hundredths(&mut text, self.a.as_percentage() as u16);
        push_close(&mut text);
        text
    }

    /// The color without its alpha.
    pub fn to_rgb(self) -> (c: RGB)
        ensures
            c@ == self@.opaque(),
            c.r == self.r,
            c.g == self.g,
            c.b == self.b,
    {
        RGB { r: self.r, g: self.g, b: self.b }
    }

    /// The color itself.
    pub fn to_rgba(self) -> (c: RGBA)
        ensures
            c == self,
    {
        self
    }

    /// The color in the HSL model, without its alpha.
    pub fn to_hsl(self) -> (c: HSL)
        ensures
            c@ == self@.to_hsla().opaque(),
    {
        self.to_hsla().to_hsl()
    }

    /// The color in the HSL model, with its alpha.
    pub fn to_hsla(self) -> (c: HSLA)
        ensures
            c@ == self@.to_hsla(),
            c.a == self.a,
    {
        let r: u32 = self.r.as_u8() as u32;
        let g: u32 = self.g.as_u8() as u32;
        let b: u32 = self.b.as_u8() as u32;

        // A grey has neither hue nor saturation, and the lightness of any channel.
        if r == g && g == b {
            return HSLA { h: Angle::new(0), s: Ratio::from_u8(0), l: self.r, a: self.a };
        }
        let high: u32 = if r >= g && r >= b {
            r
        } else if g >= b {
            g
        } else {
            b
        };
        let low: u32 = if r <= g && r <= b {
            r
        } else if g <= b {
            g
        } else {
            b
        };
        let sum: u32 = high + low;
        let spread: u32 = high - low;

        proof {
            lemma_round_div_bounds(sum as int, 2, 255);
        }
        let lightness: u32 = round_div_u32(sum, 2);

        // The spread is measured against the room that the lightness leaves:
        // up from black in the darker half, down from white in the lighter.
        let room: u32 = if sum < 255 {
            sum
        } else {
            510 - sum
        };
        proof {
            lemma_round_div_bounds(255 * spread as int, room as int, 255);
        }
        let saturation: u32 = round_div_u32(255 * spread, room);

        // The greatest channel fixes the third of the wheel, the other two
        // the place within it; a place before red comes out of the last sixth.
        let hue: u32 = if high == r {
            if g >= b {
                proof {
                    lemma_round_div_bounds(60 * (g - b) as int, spread as int, 60);
                }
                round_div_u32(60 * (g - b), spread)
            } else {
                proof {
                    lemma_round_div_bounds(60 * (b - g) as int, spread as int, 60);
                }
                let back: u32 = round_div_u32(60 * (b - g), spread);
                (360 - back) % 360
            }
        } else if high == g {
            proof {
                lemma_round_div_bounds(120 * spread + 60 * b - 60 * r, spread as int, 180);
            }
            round_div_u32(120 * spread + 60 * b - 60 * r, spread)
        } else {
            proof {
                lemma_round_div_bounds(240 * spread + 60 * r - 60 * g, spread as int, 300);
            }
            round_div_u32(240 * spread + 60 * r - 60 * g, spread)
        };

        HSLA {
            h: Angle::new(hue as u16),
            s: Ratio::from_u8(saturation as u8),
            l: Ratio::from_u8(lightness as u8),
            a: self.a,
        }
    }

    /// The color with `amount` more saturation, at most the whole, changed in the HSL model.
    pub fn saturate(self, amount: Ratio) -> (c: RGBA)
        ensures
            c@ == self@.to_hsla().saturate(amount@).to_rgba(),
    {
        self.to_hsla().saturate(amount).to_rgba()
    }

    /// The color with `amount` less saturation, at least none, changed in the HSL model.
    pub fn desaturate(self, amount: Ratio) -> (c: RGBA)
        ensures
            c@ == self@.to_hsla().desaturate(amount@).to_rgba(),
    {
        self.to_hsla().desaturate(amount).to_rgba()
    }

    /// The color with `amount` more lightness, at most the whole, changed in the HSL model.
    pub fn lighten(self, amount: Ratio) -> (c: RGBA)
        ensures
            c@ == self@.to_hsla().lighten(amount@).to_rgba(),
    {
        self.to_hsla().lighten(amount).to_rgba()
    }

    /// The color with `amount` less lightness, at least none, changed in the HSL model.
    pub fn darken(self, amount: Ratio) -> (c: RGBA)
        ensures
            c@ == self@.to_hsla().darken(amount@).to_rgba(),
    {
        self.to_hsla().darken(amount).to_rgba()
    }

    /// The color with `amount` more alpha, at most the whole.
    pub fn fadein(self, amount: Ratio) -> (c: RGBA)
        ensures
            c@ == self@.fade(clamped_sum(self@.a, amount@)),
    {
        self.fade(self.a + amount)
    }

    /// The color with `amount` less alpha, at least none.
    pub fn fadeout(self, amount: Ratio) -> (c: RGBA)
        ensures
            c@ == self@.fade(clamped_difference(self@.a, amount@)),
    {
        self.fade(self.a - amount)
    }

    /// The color with the alpha `amount`.
    pub fn fade(self, amount: Ratio) -> (c: RGBA)
        ensures
            c@ == self@.fade(amount@),
            c.a == amount,
    {
        RGBA { r: self.r, g: self.g, b: self.b, a: amount }
    }

    /// The color with its hue turned by `amount`, changed in the HSL model.
    pub fn spin(self, amount: Angle) -> (c: RGBA)
        ensures
            c@ == self@.to_hsla().spin(amount@).to_rgba(),
    {
        self.to_hsla().spin(amount).to_rgba()
    }

    /// The mix of the color with `other`, the color weighing `weight` and `other`
    /// the rest. The more opaque of the two weighs more in the color channels;
    /// the alpha is weighed by `weight` alone.
    pub fn mix<T: Canonical>(self, other: T, weight: Ratio) -> (c: RGBA)
        ensures
            c@ == self@.mix(other.as_rgba(), weight@),
    {
        let rhs: RGBA = other.to_rgba();

        // The weight and the difference of the alphas, each on a scale from
        // -255 to 255.
        let w: i32 = weight.as_u8() as i32;
        let p: i32 = 2 * w - 255;
        let q: i32 = self.a.as_u8() as i32 - rhs.a.as_u8() as i32;
        proof {
            lemma_mix_weight(w as int, self.a@, rhs.a@);
        }
        let product: i32 = p * q;

        let rgb_weight_lhs: Ratio = if product == -65025 {
            weight
        } else {
            let divisor: u32 = (65025 + product) as u32;
            let dividend: u32 = (w * (255 + q)) as u32;
            proof {
                lemma_round_div_bounds(255 * dividend as int, divisor as int, 255);
            }
            Ratio::from_u8(round_div_u32(255 * dividend, divisor) as u8)
        };
        let whole: Ratio = Ratio::from_u8(255);
        let rgb_weight_rhs: Ratio = whole - rgb_weight_lhs;
        let alpha_weight_rhs: Ratio = whole - weight;

        RGBA {
            r: (self.r * rgb_weight_lhs) + (rhs.r * rgb_weight_rhs),
            g: (self.g * rgb_weight_lhs) + (rhs.g * rgb_weight_rhs),
            b: (self.b * rgb_weight_lhs) + (rhs.b * rgb_weight_rhs),
            a: (self.a * weight) + (rhs.a * alpha_weight_rhs),
        }
    }

    /// The mix of the color with opaque white, the color weighing `weight`.
    pub fn tint(self, weight: Ratio) -> (c: RGBA)
        ensures
            c@ == self@.tint(weight@),
    {
        self.mix(RGB::new(255, 255, 255), weight)
    }

    /// The mix of the color with opaque black, the color weighing `weight`.
    pub fn shade(self, weight: Ratio) -> (c: RGBA)
        ensures
            c@ == self@.shade(weight@),
    {
        self.mix(RGB::new(0, 0, 0), weight)
    }

    /// The color without saturation, changed in the HSL model.
    pub fn greyscale(self) -> (c: RGBA)
        ensures
            c@ == self@.to_hsla().greyscale().to_rgba(),
    {
        self.to_hsla().greyscale().to_rgba()
    }
}

impl Canonical for RGBA {
    open spec fn as_rgba(self) -> RgbaModel {
        self@.to_rgba()
    }

    open spec fn as_hsla(self) -> HslaModel {
        self@.to_hsla()
    }

    fn to_rgba(self) -> (c: RGBA)
        ensures
            c == self,
    {
        RGBA::to_rgba(self)
    }

    fn to_hsla(self) -> (c: HSLA)
        ensures
            c@ == self@.to_hsla(),
            c.a == self.a,
    {
        RGBA::to_hsla(self)
    }
}

impl Color for RGBA {
    type Alpha = RGBA;

    open spec fn has_alpha() -> bool {
        true
    }

    open spec fn css_text(self) -> Seq<char> {
        rgba_text(self@)
    }

    fn to_css(self) -> (text: String)
        ensures
            text@ == rgba_text(self@),
    {
        RGBA::to_css(self)
    }

    fn to_rgb(self) -> (c: RGB)
        ensures
            c@ == self@.opaque(),
            c.r == self.r,
            c.g == self.g,
            c.b == self.b,
    {
        RGBA::to_rgb(self)
    }

    fn to_hsl(self) -> (c: HSL)
        ensures
            c@ == self@.to_hsla().opaque(),
    {
        RGBA::to_hsl(self)
    }

    fn saturate(self, amount: Ratio) -> (c: RGBA)
        ensures
            c@ == self@.to_hsla().saturate(amount@).to_rgba(),
    {
        RGBA::saturate(self, amount)
    }

    fn desaturate(self, amount: Ratio) -> (c: RGBA)
        ensures
            c@ == self@.to_hsla().desaturate(amount@).to_rgba(),
    {
        RGBA::desaturate(self, amount)
    }

    fn lighten(self, amount: Ratio) -> (c: RGBA)
        ensures
            c@ == self@.to_hsla().lighten(amount@).to_rgba(),
    {
        RGBA::lighten(self, amount)
    }

    fn darken(self, amount: Ratio) -> (c: RGBA)
        ensures
            c@ == self@.to_hsla().darken(amount@).to_rgba(),
    {
        RGBA::darken(self, amount)
    }

    fn fadein(self, amount: Ratio) -> (c: RGBA)
        ensures
            c@ == self@.fade(clamped_sum(self@.a, amount@)),
    {
        RGBA::fadein(self, amount)
    }

    fn fadeout(self, amount: Ratio) -> (c: RGBA)
        ensures
            c@ == self@.fade(clamped_difference(self@.a, amount@)),
    {
        RGBA::fadeout(self, amount)
    }

    fn fade(self, amount: Ratio) -> (c: RGBA)
        ensures
            c@ == self@.fade(amount@),
            c.a == amount,
    {
        RGBA::fade(self, amount)
    }

    fn spin(self, amount: Angle) -> (c: RGBA)
        ensures
            c@ == self@.to_hsla().spin(amount@).to_rgba(),
    {
        RGBA::spin(self, amount)
    }

    fn mix<T: Canonical>(self, other: T, weight: Ratio) -> (c: RGBA)
        ensures
            c@ == self@.mix(other.as_rgba(), weight@),
    {
        RGBA::mix(self, other, weight)
    }

    fn tint(self, weight: Ratio) -> (c: RGBA)
        ensures
            c@ == self@.tint(weight@),
    {
        RGBA::tint(self, weight)
    }

    fn shade(self, weight: Ratio) -> (c: RGBA)
        ensures
            c@ == self@.shade(weight@),
    {
        RGBA::shade(self, weight)
    }

    fn greyscale(self) -> (c: RGBA)
        ensures
            c@ == self@.to_hsla().greyscale().to_rgba(),
    {
        RGBA::greyscale(self)
    }
}

} // verus!
