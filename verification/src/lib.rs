//! Colors in the RGB and HSL models of CSS, with exact fixed-point arithmetic.
//!
//! Every channel is a [`Ratio`] (a byte that stands for a fraction of 255) or an
//! [`Angle`] (whole degrees on the hue circle). All conversions and color
//! operations are computed on integers and round to the nearest unit, halves
//! away from zero.

pub mod angle;
pub mod color;
pub mod css;
pub mod hsl;
pub mod laws;
pub mod model;
pub mod ratio;
pub mod rgb;
pub mod round_trip;
pub mod rounding;

pub use angle::{deg, degrees, Angle};
pub use color::{Canonical, Color};
pub use hsl::{hsl, hsla, HSL, HSLA};
pub use ratio::{percent, Ratio};
pub use rgb::{rgb, rgba, RGB, RGBA};
