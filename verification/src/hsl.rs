//! Colors in the HSL model, opaque and with an alpha.

use vstd::prelude::*;
use vstd::string::*;
use crate::angle::{deg, wrap, Angle};
use crate::color::{Canonical, Color};
use crate::laws::lemma_mix_of_opaque_is_opaque;
use crate::css::{
    hsl_text, hsla_text, push_close, push_decimal, push_hundredths, push_percentage,
    push_separator,
};
use crate::model::{
    channel_level, lemma_channel_level, lemma_levels, HslModel, HslaModel, RgbaModel,
};
use crate::ratio::{
    clamped_difference, clamped_sum, lemma_product_bound, percent, percentage_to_byte, Ratio,
};
use crate::rgb::{RGB, RGBA};
use crate::rounding::{round_div, round_div_u32};

verus! {

/// The opaque color of hue `h` in degrees, and of saturation `s` and lightness
/// `l` in whole percentages. Any hue is brought into range by whole turns.
pub fn hsl(h: i32, s: u8, l: u8) -> (c: HSL)
    requires
        s <= 100,
        l <= 100,
    ensures
        c@ == (HslModel {
            h: wrap(h as int),
            s: percentage_to_byte(s as int),
            l: percentage_to_byte(l as int),
        }),
{
    HSL { h: deg(h), s: percent(s), l: percent(l) }
}

/// The color of hue `h` in degrees, of saturation `s` and lightness `l` in
/// whole percentages, and of the alpha magnitude `a`.
pub fn hsla(h: i32, s: u8, l: u8, a: u8) -> (c: HSLA)
    requires
        s <= 100,
        l <= 100,
    ensures
        c@ == (HslaModel {
            h: wrap(h as int),
            s: percentage_to_byte(s as int),
            l: percentage_to_byte(l as int),
            a: a as int,
        }),
{
    HSLA { h: deg(h), s: percent(s), l: percent(l), a: Ratio::from_u8(a) }
}

/// The hue, saturation and lightness of an opaque color.
#[derive(Debug, Copy, Clone, PartialEq, Structural)]
pub struct HSL {
    /// Hue: 0 is red, 120 is green, 240 is blue.
    pub h: Angle,
    /// Saturation, from grey to the full color.
    pub s: Ratio,
    /// Lightness, from black to white.
    pub l: Ratio,
}

/// The hue, saturation and lightness of a color, and how opaque it is.
#[derive(Debug, Copy, Clone, PartialEq, Structural)]
pub struct HSLA {
    /// Hue: 0 is red, 120 is green, 240 is blue.
    pub h: Angle,
    /// Saturation, from grey to the full color.
    pub s: Ratio,
    /// Lightness, from black to white.
    pub l: Ratio,
    /// Alpha.
    pub a: Ratio,
}

impl View for HSL {
    type V = HslModel;

    open spec fn view(&self) -> HslModel {
        HslModel { h: self.h@, s: self.s@, l: self.l@ }
    }
}

impl View for HSLA {
    type V = HslaModel;

    open spec fn view(&self) -> HslaModel {
        HslaModel { h: self.h@, s: self.s@, l: self.l@, a: self.a@ }
    }
}

/// The magnitude of the channel that stands at `val` degrees on the wheel,
/// between the levels `temp_2` and `temp_1`.
fn to_rgb_value(val: u16, temp_1: u32, temp_2: u32) -> (m: u8)
    requires
        val < 360,
        temp_2 <= temp_1 <= 65025,
    ensures
        m == round_div(channel_level(val as int, temp_1 as int, temp_2 as int), 15300),
{
    proof {
        lemma_channel_level(val as int, temp_1 as int, temp_2 as int);
    }
    let span: u32 = temp_1 - temp_2;
    let level: u32 = if val > 240 {
        60 * temp_2
    } else if val > 180 {
        60 * temp_2 + span * (240 - val as u32)
    } else if val > 60 {
        60 * temp_1
    } else {
        60 * temp_2 + span * (val as u32)
    };
    round_div_u32(level, 15300) as u8
}

impl HSL {
    /// The color in CSS notation, such as `hsl(6, 93%, 71%)`.
    pub fn to_css(self) -> (text: String)
        ensures
            text@ == hsl_text(self@),
    {
        proof {
            reveal_strlit("hsl(");
        }
        let mut text: String = String::from_str("hsl(");
        assert(text@ =~= seq!['h', 's', 'l', '(']);
        push_decimal(&mut text, self.h.degrees());
        push_separator(&mut text);
        push_percentage(&mut text, self.s.as_percentage());
        push_separator(&mut text);
        push_percentage(&mut text, self.l.as_percentage());
        push_close(&mut text);
        text
    }

    /// The color in the RGB model.
    pub fn to_rgb(self) -> (c: RGB)
        ensures
            c@ == self@.to_rgba().opaque(),
    {
        self.to_hsla().to_rgb()
    }

    /// The color in the RGB model, with the whole alpha.
    pub fn to_rgba(self) -> (c: RGBA)
        ensures
            c@ == self@.to_rgba(),
    {
        self.to_hsla().to_rgba()
    }

    /// The color itself.
    pub fn to_hsl(self) -> (c: HSL)
        ensures
            c == self,
    {
        self
    }

    /// The color with the whole alpha.
    pub fn to_hsla(self) -> (c: HSLA)
        ensures
            c@ == self@.to_hsla(),
            c.h == self.h,
            c.s == self.s,
            c.l == self.l,
    {
        HSLA { h: self.h, s: self.s, l: self.l, a: Ratio::from_u8(255) }
    }

    /// The color with `amount` more saturation, at most the whole.
    pub fn saturate(self, amount: Ratio) -> (c: HSL)
        ensures
            c@ == self@.to_hsla().saturate(amount@).opaque(),
            c.h == self.h,
            c.l == self.l,
    {
        self.to_hsla().saturate(amount).to_hsl()
    }

    /// The color with `amount` less saturation, at least none.
    pub fn desaturate(self, amount: Ratio) -> (c: HSL)
        ensures
            c@ == self@.to_hsla().desaturate(amount@).opaque(),
            c.h == self.h,
            c.l == self.l,
    {
        self.to_hsla().desaturate(amount).to_hsl()
    }

    /// The color with `amount` more lightness, at most the whole.
    pub fn lighten(self, amount: Ratio) -> (c: HSL)
        ensures
            c@ == self@.to_hsla().lighten(amount@).opaque(),
            c.h == self.h,
            c.s == self.s,
    {
        self.to_hsla().lighten(amount).to_hsl()
    }

    /// The color with `amount` less lightness, at least none.
    pub fn darken(self, amount: Ratio) -> (c: HSL)
        ensures
            c@ == self@.to_hsla().darken(amount@).opaque(),
            c.h == self.h,
            c.s == self.s,
    {
        self.to_hsla().darken(amount).to_hsl()
    }

    /// The color itself: an opaque color has no alpha to raise.
    pub fn fadein(self, _amount: Ratio) -> (c: HSL)
        ensures
            c == self,
    {
        self
    }

    /// The color itself: an opaque color has no alpha to lower.
    pub fn fadeout(self, _amount: Ratio) -> (c: HSL)
        ensures
            c == self,
    {
        self
    }

    /// The color with the alpha `amount`.
    pub fn fade(self, amount: Ratio) -> (c: HSLA)
        ensures
            c@ == self@.with_alpha(amount@),
            c.h == self.h,
            c.s == self.s,
            c.l == self.l,
            c.a == amount,
    {
        self.to_hsla().fade(amount)
    }

    /// The color with its hue turned by `amount`.
    pub fn spin(self, amount: Angle) -> (c: HSL)
        ensures
            c@ == self@.to_hsla().spin(amount@).opaque(),
            c.s == self.s,
            c.l == self.l,
    {
        self.to_hsla().spin(amount).to_hsl()
    }

    /// The mix of the color with `other`, the color weighing `weight`: the two are
    /// mixed in the RGB model and the mix is brought back.
    pub fn mix<T: Canonical>(self, other: T, weight: Ratio) -> (c: HSLA)
        ensures
            c@ == self@.to_rgba().mix(other.as_rgba(), weight@).to_hsla(),
    {
        self.to_hsla().mix(other, weight)
    }

    /// The mix of the color with opaque white, the color weighing `weight`.
    pub fn tint(self, weight: Ratio) -> (c: HSL)
        ensures
            c@ == self@.to_rgba().tint(weight@).to_hsla().opaque(),
    {
        self.to_hsla().tint(weight).to_hsl()
    }

    /// The mix of the color with opaque black, the color weighing `weight`.
    pub fn shade(self, weight: Ratio) -> (c: HSL)
        ensures
            c@ == self@.to_rgba().shade(weight@).to_hsla().opaque(),
    {
        self.to_hsla().shade(weight).to_hsl()
    }

    /// The color without saturation.
    pub fn greyscale(self) -> (c: HSL)
        ensures
            c@ == self@.to_hsla().greyscale().opaque(),
            c.h == self.h,
            c.l == self.l,
    {
        self.to_hsla().greyscale().to_hsl()
    }
}

impl Canonical for HSL {
    open spec fn as_rgba(self) -> RgbaModel {
        self@.to_rgba()
    }

    open spec fn as_hsla(self) -> HslaModel {
        self@.to_hsla()
    }

    fn to_rgba(self) -> (c: RGBA)
        ensures
            c@ == self@.to_rgba(),
    {
        HSL::to_rgba(self)
    }

    fn to_hsla(self) -> (c: HSLA)
        ensures
            c@ == self@.to_hsla(),
            c.h == self.h,
            c.s == self.s,
            c.l == self.l,
    {
        HSL::to_hsla(self)
    }
}

impl Color for HSL {
    type Alpha = HSLA;

    open spec fn has_alpha() -> bool {
        false
    }

    open spec fn css_text(self) -> Seq<char> {
        hsl_text(self@)
    }

    fn to_css(self) -> (text: String)
        ensures
            text@ == hsl_text(self@),
    {
        HSL::to_css(self)
    }

    fn to_rgb(self) -> (c: RGB)
        ensures
            c@ == self@.to_rgba().opaque(),
    {
        HSL::to_rgb(self)
    }

    fn to_hsl(self) -> (c: HSL)
        ensures
            c == self,
    {
        HSL::to_hsl(self)
    }

    fn saturate(self, amount: Ratio) -> (c: HSL)
        ensures
            c@ == self@.to_hsla().saturate(amount@).opaque(),
            c.h == self.h,
            c.l == self.l,
    {
        HSL::saturate(self, amount)
    }

    fn desaturate(self, amount: Ratio) -> (c: HSL)
        ensures
            c@ == self@.to_hsla().desaturate(amount@).opaque(),
            c.h == self.h,
            c.l == self.l,
    {
        HSL::desaturate(self, amount)
    }

    fn lighten(self, amount: Ratio) -> (c: HSL)
        ensures
            c@ == self@.to_hsla().lighten(amount@).opaque(),
            c.h == self.h,
            c.s == self.s,
    {
        HSL::lighten(self, amount)
    }

    fn darken(self, amount: Ratio) -> (c: HSL)
        ensures
            c@ == self@.to_hsla().darken(amount@).opaque(),
            c.h == self.h,
            c.s == self.s,
    {
        HSL::darken(self, amount)
    }

    fn fadein(self, _amount: Ratio) -> (c: HSL)
        ensures
            c == self,
    {
        HSL::fadein(self, _amount)
    }

    fn fadeout(self, _amount: Ratio) -> (c: HSL)
        ensures
            c == self,
    {
        HSL::fadeout(self, _amount)
    }

    fn fade(self, amount: Ratio) -> (c: HSLA)
        ensures
            c@ == self@.with_alpha(amount@),
            c.h == self.h,
            c.s == self.s,
            c.l == self.l,
            c.a == amount,
    {
        HSL::fade(self, amount)
    }

    fn spin(self, amount: Angle) -> (c: HSL)
        ensures
            c@ == self@.to_hsla().spin(amount@).opaque(),
            c.s == self.s,
            c.l == self.l,
    {
        HSL::spin(self, amount)
    }

    fn mix<T: Canonical>(self, other: T, weight: Ratio) -> (c: HSLA)
        ensures
            c@ == self@.to_rgba().mix(other.as_rgba(), weight@).to_hsla(),
    {
        HSL::mix(self, other, weight)
    }

    fn tint(self, weight: Ratio) -> (c: HSL)
        ensures
            c@ == self@.to_rgba().tint(weight@).to_hsla().opaque(),
    {
        proof {
            weight.lemma_view(weight);
            lemma_mix_of_opaque_is_opaque(
                self.as_rgba(),
                RgbaModel { r: 0, g: 0, b: 0, a: 255 },
                weight@,
            );
        }
        HSL::tint(self, weight)
    }

    fn shade(self, weight: Ratio) -> (c: HSL)
        ensures
            c@ == self@.to_rgba().shade(weight@).to_hsla().opaque(),
    {
        proof {
            weight.lemma_view(weight);
            lemma_mix_of_opaque_is_opaque(
                self.as_rgba(),
                RgbaModel { r: 0, g: 0, b: 0, a: 255 },
                weight@,
            );
        }
        HSL::shade(self, weight)
    }

    fn greyscale(self) -> (c: HSL)
        ensures
            c@ == self@.to_hsla().greyscale().opaque(),
            c.h == self.h,
            c.l == self.l,
    {
        HSL::greyscale(self)
    }
}

impl HSLA {
    /// The color in CSS notation, such as `hsla(6, 93%, 71%, 0.50)`.
    pub fn to_css(self) -> (text: String)
        ensures
            text@ == hsla_text(self@),
    {
        proof {
            reveal_strlit("hsla(");
        }
        let mut text: String = String::from_str("hsla(");
        assert(text@ =~= seq!['h', 's', 'l', 'a', '(']);
        push_decimal(&mut text, self.h.degrees());
        push_separator(&mut text);
        push_percentage(&mut text, self.s.as_percentage());
        push_separator(&mut text);
        push_percentage(&mut text, self.l.as_percentage());
        push_separator(&mut text);
        push_hundredths(&mut text, self.a.as_percentage() as u16);
        push_close(&mut text);
        text
    }

    /// The color in the RGB model, without its alpha.
    pub fn to_rgb(self) -> (c: RGB)
        ensures
            c@ == self@.to_rgba().opaque(),
    {
        self.to_rgba().to_rgb()
    }

    /// The color in the RGB model, with its alpha.
    pub fn to_rgba(self) -> (c: RGBA)
        ensures
            c@ == self@.to_rgba(),
            c.a == self.a,
    {
        let s: u32 = self.s.as_u8() as u32;
        let l: u32 = self.l.as_u8() as u32;

        // Without saturation the color is a grey as light as its lightness.
        if s == 0 {
            return RGBA { r: self.l, g: self.l, b: self.l, a: self.a };
        }
        proof {
            lemma_levels(s as int, l as int);
            lemma_product_bound(l as int, s as int);
        }
        // The channels lie between two levels, equally far above and below
        // the lightness; the saturation says how far.
        let temp_1: u32 = if 2 * l < 255 {
            l * (255 + s)
        } else {
            255 * l + 255 * s - l * s
        };
        let temp_2: u32 = 510 * l - temp_1;

        // Red stands a third of a turn ahead of the hue, blue a third behind.
        let rotation: Angle = Angle::new(120);
        let temporary_r: u16 = (self.h + rotation).degrees();
        let temporary_g: u16 = self.h.degrees();
        let temporary_b: u16 = (self.h - rotation).degrees();

        let red: u8 = to_rgb_value(temporary_r, temp_1, temp_2);
        let green: u8 = to_rgb_value(temporary_g, temp_1, temp_2);
        let blue: u8 = to_rgb_value(temporary_b, temp_1, temp_2);

        RGBA {
            r: Ratio::from_u8(red),
            g: Ratio::from_u8(green),
            b: Ratio::from_u8(blue),
            a: self.a,
        }
    }

    /// The color without its alpha.
    pub fn to_hsl(self) -> (c: HSL)
        ensures
            c@ == self@.opaque(),
            c.h == self.h,
            c.s == self.s,
            c.l == self.l,
    {
        HSL { h: self.h, s: self.s, l: self.l }
    }

    /// The color itself.
    pub fn to_hsla(self) -> (c: HSLA)
        ensures
            c == self,
    {
        self
    }

    /// The color with `amount` more saturation, at most the whole.
    pub fn saturate(self, amount: Ratio) -> (c: HSLA)
        ensures
            c@ == self@.saturate(amount@),
            c.h == self.h,
            c.l == self.l,
            c.a == self.a,
    {
        HSLA { h: self.h, s: self.s + amount, l: self.l, a: self.a }
    }

    /// The color with `amount` less saturation, at least none.
    pub fn desaturate(self, amount: Ratio) -> (c: HSLA)
        ensures
            c@ == self@.desaturate(amount@),
            c.h == self.h,
            c.l == self.l,
            c.a == self.a,
    {
        HSLA { h: self.h, s: self.s - amount, l: self.l, a: self.a }
    }

    /// The color with `amount` more lightness, at most the whole.
    pub fn lighten(self, amount: Ratio) -> (c: HSLA)
        ensures
            c@ == self@.lighten(amount@),
            c.h == self.h,
            c.s == self.s,
            c.a == self.a,
    {
        HSLA { h: self.h, s: self.s, l: self.l + amount, a: self.a }
    }

    /// The color with `amount` less lightness, at least none.
    pub fn darken(self, amount: Ratio) -> (c: HSLA)
        ensures
            c@ == self@.darken(amount@),
            c.h == self.h,
            c.s == self.s,
            c.a == self.a,
    {
        HSLA { h: self.h, s: self.s, l: self.l - amount, a: self.a }
    }

    /// The color with `amount` more alpha, at most the whole.
    pub fn fadein(self, amount: Ratio) -> (c: HSLA)
        ensures
            c@ == self@.fade(clamped_sum(self@.a, amount@)),
            c.h == self.h,
            c.s == self.s,
            c.l == self.l,
    {
        self.fade(self.a + amount)
    }

    /// The color with `amount` less alpha, at least none.
    pub fn fadeout(self, amount: Ratio) -> (c: HSLA)
        ensures
            c@ == self@.fade(clamped_difference(self@.a, amount@)),
            c.h == self.h,
            c.s == self.s,
            c.l == self.l,
    {
        self.fade(self.a - amount)
    }

    /// The color with the alpha `amount`.
    pub fn fade(self, amount: Ratio) -> (c: HSLA)
        ensures
            c@ == self@.fade(amount@),
            c.h == self.h,
            c.s == self.s,
            c.l == self.l,
            c.a == amount,
    {
        HSLA { h: self.h, s: self.s, l: self.l, a: amount }
    }

    /// The color with its hue turned by `amount`.
    pub fn spin(self, amount: Angle) -> (c: HSLA)
        ensures
            c@ == self@.spin(amount@),
            c.s == self.s,
            c.l == self.l,
            c.a == self.a,
    {
        HSLA { h: self.h + amount, s: self.s, l: self.l, a: self.a }
    }

    /// The mix of the color with `other`, the color weighing `weight`: the two are
    /// mixed in the RGB model and the mix is brought back.
    pub fn mix<T: Canonical>(self, other: T, weight: Ratio) -> (c: HSLA)
        ensures
            c@ == self@.to_rgba().mix(other.as_rgba(), weight@).to_hsla(),
    {
        self.to_rgba().mix(other, weight).to_hsla()
    }

    /// The mix of the color with opaque white, the color weighing `weight`.
    pub fn tint(self, weight: Ratio) -> (c: HSLA)
        ensures
            c@ == self@.to_rgba().tint(weight@).to_hsla(),
    {
        self.to_rgba().tint(weight).to_hsla()
    }

    /// The mix of the color with opaque black, the color weighing `weight`.
    pub fn shade(self, weight: Ratio) -> (c: HSLA)
        ensures
            c@ == self@.to_rgba().shade(weight@).to_hsla(),
    {
        self.to_rgba().shade(weight).to_hsla()
    }

    /// The color without saturation.
    pub fn greyscale(self) -> (c: HSLA)
        ensures
            c@ == self@.greyscale(),
            c.h == self.h,
            c.l == self.l,
            c.a == self.a,
    {
        HSLA { h: self.h, s: Ratio::from_u8(0), l: self.l, a: self.a }
    }
}

impl Canonical for HSLA {
    open spec fn as_rgba(self) -> RgbaModel {
        self@.to_rgba()
    }

    open spec fn as_hsla(self) -> HslaModel {
        self@.to_hsla()
    }

    fn to_rgba(self) -> (c: RGBA)
        ensures
            c@ == self@.to_rgba(),
            c.a == self.a,
    {
        HSLA::to_rgba(self)
    }

    fn to_hsla(self) -> (c: HSLA)
        ensures
            c == self,
    {
        HSLA::to_hsla(self)
    }
}

impl Color for HSLA {
    type Alpha = HSLA;

    open spec fn has_alpha() -> bool {
        true
    }

    open spec fn css_text(self) -> Seq<char> {
        hsla_text(self@)
    }

    fn to_css(self) -> (text: String)
        ensures
            text@ == hsla_text(self@),
    {
        HSLA::to_css(self)
    }

    fn to_rgb(self) -> (c: RGB)
        ensures
            c@ == self@.to_rgba().opaque(),
    {
        HSLA::to_rgb(self)
    }

    fn to_hsl(self) -> (c: HSL)
        ensures
            c@ == self@.opaque(),
            c.h == self.h,
            c.s == self.s,
            c.l == self.l,
    {
        HSLA::to_hsl(self)
    }

    fn saturate(self, amount: Ratio) -> (c: HSLA)
        ensures
            c@ == self@.saturate(amount@),
            c.h == self.h,
            c.l == self.l,
            c.a == self.a,
    {
        HSLA::saturate(self, amount)
    }

    fn desaturate(self, amount: Ratio) -> (c: HSLA)
        ensures
            c@ == self@.desaturate(amount@),
            c.h == self.h,
            c.l == self.l,
            c.a == self.a,
    {
        HSLA::desaturate(self, amount)
    }

    fn lighten(self, amount: Ratio) -> (c: HSLA)
        ensures
            c@ == self@.lighten(amount@),
            c.h == self.h,
            c.s == self.s,
            c.a == self.a,
    {
        HSLA::lighten(self, amount)
    }

    fn darken(self, amount: Ratio) -> (c: HSLA)
        ensures
            c@ == self@.darken(amount@),
            c.h == self.h,
            c.s == self.s,
            c.a == self.a,
    {
        HSLA::darken(self, amount)
    }

    fn fadein(self, amount: Ratio) -> (c: HSLA)
        ensures
            c@ == self@.fade(clamped_sum(self@.a, amount@)),
            c.h == self.h,
            c.s == self.s,
            c.l == self.l,
    {
        HSLA::fadein(self, amount)
    }

    fn fadeout(self, amount: Ratio) -> (c: HSLA)
        ensures
            c@ == self@.fade(clamped_difference(self@.a, amount@)),
            c.h == self.h,
            c.s == self.s,
            c.l == self.l,
    {
        HSLA::fadeout(self, amount)
    }

    fn fade(self, amount: Ratio) -> (c: HSLA)
        ensures
            c@ == self@.fade(amount@),
            c.h == self.h,
            c.s == self.s,
            c.l == self.l,
            c.a == amount,
    {
        HSLA::fade(self, amount)
    }

    fn spin(self, amount: Angle) -> (c: HSLA)
        ensures
            c@ == self@.spin(amount@),
            c.s == self.s,
            c.l == self.l,
            c.a == self.a,
    {
        HSLA::spin(self, amount)
    }

    fn mix<T: Canonical>(self, other: T, weight: Ratio) -> (c: HSLA)
        ensures
            c@ == self@.to_rgba().mix(other.as_rgba(), weight@).to_hsla(),
    {
        HSLA::mix(self, other, weight)
    }

    fn tint(self, weight: Ratio) -> (c: HSLA)
        ensures
            c@ == self@.to_rgba().tint(weight@).to_hsla(),
    {
        HSLA::tint(self, weight)
    }

    fn shade(self, weight: Ratio) -> (c: HSLA)
        ensures
            c@ == self@.to_rgba().shade(weight@).to_hsla(),
    {
        HSLA::shade(self, weight)
    }

    fn greyscale(self) -> (c: HSLA)
        ensures
            c@ == self@.greyscale(),
            c.h == self.h,
            c.l == self.l,
            c.a == self.a,
    {
        HSLA::greyscale(self)
    }
}

} // verus!
