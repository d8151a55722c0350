//! Ratios: fractions in `[0, 1]` held as a byte over 255.

use vstd::prelude::*;
use vstd::std_specs::ops::{
    AddSpec, AddSpecImpl, DivSpec, DivSpecImpl, MulSpec, MulSpecImpl, SubSpec, SubSpecImpl,
};
use crate::css::{percentage, push_percentage};
use crate::rounding::{lemma_round_div_bounds, round_div, round_div_u32};

verus! {

/// The byte nearest to `percentage / 100` of 255.
pub open spec fn percentage_to_byte(percentage: int) -> int {
    round_div(255 * percentage, 100)
}

/// The whole percentage nearest to `byte / 255`.
pub open spec fn byte_to_percentage(byte: int) -> int {
    round_div(100 * byte, 255)
}

/// The sum of two magnitudes, held at the upper end of the range.
pub open spec fn clamped_sum(x: int, y: int) -> int {
    if x + y > 255 {
        255
    } else {
        x + y
    }
}

/// The difference of two magnitudes, held at the lower end of the range.
pub open spec fn clamped_difference(x: int, y: int) -> int {
    if x < y {
        0
    } else {
        x - y
    }
}

/// The magnitude nearest to the product of the fractions `x / 255` and `y / 255`.
pub open spec fn scaled_product(x: int, y: int) -> int {
    round_div(x * y, 255)
}

/// The magnitude nearest to the quotient of the fractions `x / 255` and `y / 255`,
/// held at the upper end of the range. Nothing divided by nothing is nothing;
/// anything else divided by nothing is the whole.
pub open spec fn clamped_quotient(x: int, y: int) -> int {
    if y == 0 {
        if x == 0 {
            0
        } else {
            255
        }
    } else if x >= y {
        255
    } else {
        round_div(255 * x, y)
    }
}

/// A fraction in `[0, 1]`, stored as the byte `m` that stands for `m / 255`.
#[derive(Debug, Copy, Clone, Ord, PartialOrd, Eq, PartialEq, Structural)]
pub struct Ratio(u8);

impl View for Ratio {
    type V = int;

    /// The magnitude `m`, in `0..=255`.
    closed spec fn view(&self) -> int {
        self.0 as int
    }
}

/// The ratio of `percentage` hundredths.
pub fn percent(percentage: u8) -> (r: Ratio)
    requires
        percentage <= 100,
    ensures
        r@ == percentage_to_byte(percentage as int),
{
    Ratio::from_percentage(percentage)
}

impl Ratio {
    /// The magnitude of a ratio is a byte, and the magnitude fixes the ratio.
    pub proof fn lemma_view(self, other: Ratio)
        ensures
            0 <= self@ <= 255,
            self@ == other@ <==> self == other,
    {
    }

    /// The ratio of `percentage` hundredths, rounded to the nearest byte.
    pub fn from_percentage(percentage: u8) -> (r: Ratio)
        requires
            percentage <= 100,
        ensures
            r@ == percentage_to_byte(percentage as int),
    {
        proof {
            lemma_round_div_bounds(255 * percentage as int, 100, 255);
        }
        let byte: u32 = round_div_u32(255 * (percentage as u32), 100);
        Ratio(byte as u8)
    }

    /// The ratio of `percentage` hundredths, or nothing where that is more than the whole.
    pub fn checked_from_percentage(percentage: u8) -> (r: Option<Ratio>)
        ensures
            percentage <= 100 <==> r.is_some(),
            r.is_some() ==> r.unwrap()@ == percentage_to_byte(percentage as int),
    {
        if percentage <= 100 {
            Some(Ratio::from_percentage(percentage))
        } else {
            None
        }
    }

    /// The ratio `value / 255`.
    pub fn from_u8(value: u8) -> (r: Ratio)
        ensures
            r@ == value,
    {
        Ratio(value)
    }

    /// The ratio in hundredths, rounded to the nearest whole.
    pub fn as_percentage(self) -> (p: u8)
        ensures
            p == byte_to_percentage(self@),
            p <= 100,
    {
        proof {
            lemma_round_div_bounds(100 * self.0 as int, 255, 100);
        }
        let hundredths: u32 = round_div_u32(100 * (self.0 as u32), 255);
        hundredths as u8
    }

    /// The magnitude `m` of the ratio `m / 255`.
    pub fn as_u8(self) -> (m: u8)
        ensures
            m == self@,
    {
        self.0
    }

    /// The ratio as a whole percentage with its sign, such as `25%`.
    pub fn to_string(self) -> (text: String)
        ensures
            text@ == percentage(self@),
    {
        let mut text: String = String::new();
        push_percentage(&mut text, self.as_percentage());
        assert(text@ =~= percentage(self@));
        text
    }

    /// Sums and differences of ratios never leave the range: a sum is at
    /// most the whole, a difference at least nothing, and within the range
    /// both are exact.
    pub proof fn lemma_sum_and_difference_clamped(self, other: Ratio)
        ensures
            AddSpec::add_spec(self, other)@ == clamped_sum(self@, other@),
            AddSpec::add_spec(self, other)@ <= 255,
            SubSpec::sub_spec(self, other)@ == clamped_difference(self@, other@),
            SubSpec::sub_spec(self, other)@ >= 0,
    {
    }

    /// Products and quotients of ratios never leave the range.
    pub proof fn lemma_product_and_quotient_clamped(self, other: Ratio)
        ensures
            MulSpec::mul_spec(self, other)@ == scaled_product(self@, other@),
            DivSpec::div_spec(self, other)@ == clamped_quotient(self@, other@),
            0 <= MulSpec::mul_spec(self, other)@ <= 255,
            0 <= DivSpec::div_spec(self, other)@ <= 255,
    {
        lemma_product_bound(self@, other@);
        lemma_quotient_bound(self@, other@);
    }
}

impl core::ops::Add for Ratio {
    type Output = Ratio;

    /// The sum, held at the whole.
    fn add(self, other: Ratio) -> (r: Ratio)
        ensures
            r@ == clamped_sum(self@, other@),
            r@ <= 255,
    {
        let total: u16 = self.0 as u16 + other.0 as u16;
        if total > 255 {
            Ratio(255)
        } else {
            Ratio(total as u8)
        }
    }
}

impl AddSpecImpl for Ratio {
    open spec fn obeys_add_spec() -> bool {
        true
    }

    open spec fn add_req(self, other: Ratio) -> bool {
        true
    }

    closed spec fn add_spec(self, other: Ratio) -> Ratio {
        Ratio(clamped_sum(self.0 as int, other.0 as int) as u8)
    }
}

impl core::ops::Sub for Ratio {
    type Output = Ratio;

    /// The difference, held at nothing.
    fn sub(self, other: Ratio) -> (r: Ratio)
        ensures
            r@ == clamped_difference(self@, other@),
            r@ >= 0,
    {
        if self.0 < other.0 {
            Ratio(0)
        } else {
            Ratio(self.0 - other.0)
        }
    }
}

impl SubSpecImpl for Ratio {
    open spec fn obeys_sub_spec() -> bool {
        true
    }

    open spec fn sub_req(self, other: Ratio) -> bool {
        true
    }

    closed spec fn sub_spec(self, other: Ratio) -> Ratio {
        Ratio(clamped_difference(self.0 as int, other.0 as int) as u8)
    }
}

impl core::ops::Mul for Ratio {
    type Output = Ratio;

    /// The product of the two fractions, rounded to the nearest byte.
    fn mul(self, other: Ratio) -> (r: Ratio)
        ensures
            r@ == scaled_product(self@, other@),
    {
        proof {
            lemma_product_bound(self.0 as int, other.0 as int);
            lemma_round_div_bounds(self.0 as int * other.0 as int, 255, 255);
        }
        let product: u32 = (self.0 as u32) * (other.0 as u32);
        let byte: u32 = round_div_u32(product, 255);
        Ratio(byte as u8)
    }
}

impl MulSpecImpl for Ratio {
    open spec fn obeys_mul_spec() -> bool {
        true
    }

    open spec fn mul_req(self, other: Ratio) -> bool {
        true
    }

    closed spec fn mul_spec(self, other: Ratio) -> Ratio {
        Ratio(scaled_product(self.0 as int, other.0 as int) as u8)
    }
}

impl core::ops::Div for Ratio {
    type Output = Ratio;

    /// The quotient of the two fractions, rounded to the nearest byte and held at the whole.
    fn div(self, other: Ratio) -> (r: Ratio)
        ensures
            r@ == clamped_quotient(self@, other@),
    {
        if other.0 == 0 {
            if self.0 == 0 {
                Ratio(0)
            } else {
                Ratio(255)
            }
        } else if self.0 >= other.0 {
            Ratio(255)
        } else {
            proof {
                lemma_quotient_bound(self.0 as int, other.0 as int);
            }
            let byte: u32 = round_div_u32(255 * (self.0 as u32), other.0 as u32);
            Ratio(byte as u8)
        }
    }
}

impl DivSpecImpl for Ratio {
    open spec fn obeys_div_spec() -> bool {
        true
    }

    open spec fn div_req(self, other: Ratio) -> bool {
        true
    }

    closed spec fn div_spec(self, other: Ratio) -> Ratio {
        Ratio(clamped_quotient(self.0 as int, other.0 as int) as u8)
    }
}

/// The product of two magnitudes is at most the square of the whole.
pub proof fn lemma_product_bound(x: int, y: int)
    requires
        0 <= x <= 255,
        0 <= y <= 255,
    ensures
        0 <= x * y <= 255 * 255,
        0 <= scaled_product(x, y) <= 255,
{
    assert(0 <= x * y <= 255 * 255) by (nonlinear_arith)
        requires
            0 <= x <= 255,
            0 <= y <= 255,
    ;
    lemma_round_div_bounds(x * y, 255, 255);
}

/// Every quotient of magnitudes is a magnitude.
pub proof fn lemma_quotient_bound(x: int, y: int)
    requires
        0 <= x <= 255,
        0 <= y <= 255,
    ensures
        0 <= clamped_quotient(x, y) <= 255,
{
    if y > 0 && x < y {
        assert(255 * x <= 255 * y);
        lemma_round_div_bounds(255 * x, y, 255);
    }
}

} // verus!
