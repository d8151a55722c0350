//! What the four color types have in common.

use vstd::prelude::*;
use crate::angle::Angle;
use crate::hsl::{HSL, HSLA};
use crate::model::{HslaModel, RgbaModel};
use crate::ratio::{clamped_difference, clamped_sum, Ratio};
use crate::rgb::{RGB, RGBA};

verus! {

/// A value that has a color in the two models that carry an alpha: what a
/// color can be mixed with.
pub trait Canonical: Sized {
    /// The color in the RGB model; an opaque color has the whole alpha.
    spec fn as_rgba(self) -> RgbaModel;

    /// The color in the HSL model; an opaque color has the whole alpha.
    spec fn as_hsla(self) -> HslaModel;

    /// The color as RGBA.
    fn to_rgba(self) -> (c: RGBA)
        ensures
            c@ == self.as_rgba(),
    ;

    /// The color as HSLA.
    fn to_hsla(self) -> (c: HSLA)
        ensures
            c@ == self.as_hsla(),
    ;
}

/// A color that converts to each of the four color types and can be edited.
///
/// Every operation returns a new color. The clauses here hold of all four
/// types; each type states its own result exactly on the method of the same
/// name.
pub trait Color: Canonical {
    /// The type of the same model that carries an alpha.
    type Alpha: Canonical;

    /// Whether colors of this type carry an alpha of their own.
    spec fn has_alpha() -> bool;

    /// The color in CSS notation, as a sequence of characters.
    spec fn css_text(self) -> Seq<char>;

    /// The color in CSS notation.
    fn to_css(self) -> (text: String)
        ensures
            text@ == self.css_text(),
    ;

    /// The color as RGB, without its alpha.
    fn to_rgb(self) -> (c: RGB)
        ensures
            c@ == self.as_rgba().opaque(),
    ;

    /// The color as HSL, without its alpha.
    fn to_hsl(self) -> (c: HSL)
        ensures
            c@ == self.as_hsla().opaque(),
    ;

    /// The color with `amount` more saturation.
    fn saturate(self, amount: Ratio) -> (c: Self)
        ensures
            c.as_rgba() == self.as_hsla().saturate(amount@).to_rgba(),
    ;

    /// The color with `amount` less saturation.
    fn desaturate(self, amount: Ratio) -> (c: Self)
        ensures
            c.as_rgba() == self.as_hsla().desaturate(amount@).to_rgba(),
    ;

    /// The color with `amount` more lightness.
    fn lighten(self, amount: Ratio) -> (c: Self)
        ensures
            c.as_rgba() == self.as_hsla().lighten(amount@).to_rgba(),
    ;

    /// The color with `amount` less lightness.
    fn darken(self, amount: Ratio) -> (c: Self)
        ensures
            c.as_rgba() == self.as_hsla().darken(amount@).to_rgba(),
    ;

    /// The color with `amount` more alpha; an opaque color stays as it is.
    fn fadein(self, amount: Ratio) -> (c: Self)
        ensures
            Self::has_alpha() ==> c.as_rgba() == self.as_rgba().fade(
                clamped_sum(self.as_rgba().a, amount@),
            ),
            Self::has_alpha() ==> c.as_hsla() == self.as_hsla().fade(
                clamped_sum(self.as_hsla().a, amount@),
            ),
            !Self::has_alpha() ==> c == self,
    ;

    /// The color with `amount` less alpha; an opaque color stays as it is.
    fn fadeout(self, amount: Ratio) -> (c: Self)
        ensures
            Self::has_alpha() ==> c.as_rgba() == self.as_rgba().fade(
                clamped_difference(self.as_rgba().a, amount@),
            ),
            Self::has_alpha() ==> c.as_hsla() == self.as_hsla().fade(
                clamped_difference(self.as_hsla().a, amount@),
            ),
            !Self::has_alpha() ==> c == self,
    ;

    /// The color with the alpha `amount`.
    fn fade(self, amount: Ratio) -> (c: Self::Alpha)
        ensures
            c.as_rgba() == self.as_rgba().fade(amount@),
            c.as_hsla() == self.as_hsla().fade(amount@),
    ;

    /// The color with its hue turned by `amount`.
    fn spin(self, amount: Angle) -> (c: Self)
        ensures
            c.as_rgba() == self.as_hsla().spin(amount@).to_rgba(),
    ;

    /// The mix of the color with `other`, the color weighing `weight`.
    fn mix<T: Canonical>(self, other: T, weight: Ratio) -> (c: Self::Alpha)
        ensures
            c.as_hsla() == self.as_rgba().mix(other.as_rgba(), weight@).to_hsla(),
    ;

    /// The mix of the color with white.
    fn tint(self, weight: Ratio) -> (c: Self)
        ensures
            c.as_hsla() == self.as_rgba().tint(weight@).to_hsla(),
    ;

    /// The mix of the color with black.
    fn shade(self, weight: Ratio) -> (c: Self)
        ensures
            c.as_hsla() == self.as_rgba().shade(weight@).to_hsla(),
    ;

    /// The color without saturation.
    fn greyscale(self) -> (c: Self)
        ensures
            c.as_rgba() == self.as_hsla().greyscale().to_rgba(),
    ;
}

} // verus!
