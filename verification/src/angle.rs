//! Hue angles: whole degrees on a circle, always in `0..360`.

use core::ops::Neg;
use vstd::prelude::*;
use vstd::std_specs::ops::{
    AddSpec, AddSpecImpl, DivSpecImpl, MulSpec, MulSpecImpl, NegSpec, NegSpecImpl, SubSpec,
    SubSpecImpl,
};
use crate::css::{decimal, push_decimal};

verus! {

/// The representative in `0..360` of `d` degrees.
pub open spec fn wrap(d: int) -> int {
    d % 360
}

/// The angle of `d` degrees, brought into `0..360` by whole turns.
pub fn degrees(d: i16) -> (r: Angle)
    ensures
        r@ == wrap(d as int),
{
    deg(d as i32)
}

/// The angle of `d` degrees, brought into `0..360` by whole turns.
pub fn deg(d: i32) -> (r: Angle)
    ensures
        r@ == wrap(d as int),
{
    let wide: i64 = d as i64;
    let turned: i64 = if wide < 0 {
        let back: i64 = (-wide) % 360;
        if back == 0 {
            0
        } else {
            360 - back
        }
    } else {
        wide % 360
    };
    Angle { degrees: turned as u16 }
}

/// A number of degrees on a circle. Legal values range over `0..360`.
#[derive(Debug, Copy, Clone, Eq, PartialEq, Ord, PartialOrd, Structural)]
pub struct Angle {
    degrees: u16,
}

impl View for Angle {
    type V = int;

    /// The number of degrees.
    closed spec fn view(&self) -> int {
        self.degrees as int
    }
}

impl Angle {
    #[verifier::type_invariant]
    closed spec fn in_range(self) -> bool {
        self.degrees < 360
    }

    /// The number of degrees fixes the angle.
    pub proof fn lemma_view(self, other: Angle)
        ensures
            self@ == other@ <==> self == other,
    {
    }

    /// The angle of `degrees`, less whole turns.
    pub fn new(degrees: u16) -> (r: Angle)
        ensures
            r@ == wrap(degrees as int),
    {
        Angle { degrees: degrees % 360 }
    }

    /// The number of degrees, in `0..360`.
    pub fn degrees(self) -> (d: u16)
        ensures
            d == self@,
            d < 360,
    {
        proof {
            use_type_invariant(self);
        }
        self.degrees
    }

    /// The number of degrees as a decimal numeral.
    pub fn to_string(self) -> (text: String)
        ensures
            text@ == decimal(self@),
    {
        let mut text: String = String::new();
        push_decimal(&mut text, self.degrees());
        assert(text@ =~= decimal(self@));
        text
    }

    /// The sum of two angles has the degrees of both, added, less whole
    /// turns; the difference, the product and the negation likewise.
    pub proof fn lemma_arithmetic_wraps(self, other: Angle)
        requires
            0 <= self@ < 360,
            0 <= other@ < 360,
        ensures
            AddSpec::add_spec(self, other)@ == (self@ + other@) % 360,
            SubSpec::sub_spec(self, other)@ == (self@ - other@) % 360,
            MulSpec::mul_spec(self, other)@ == (self@ * other@) % 360,
            NegSpec::neg_spec(self)@ == (-self@) % 360,
    {
        assert(0 <= self.degrees * other.degrees <= 359 * 359) by (nonlinear_arith)
            requires
                0 <= self.degrees < 360,
                0 <= other.degrees < 360,
        ;
    }

    /// The quotient of the degrees, or nothing where `other` is the zero angle.
    pub fn checked_div(self, other: Angle) -> (r: Option<Angle>)
        ensures
            r.is_some() <==> other@ != 0,
            r.is_some() ==> r.unwrap()@ == wrap(self@ / other@),
    {
        if other.degrees == 0 {
            None
        } else {
            Some(self / other)
        }
    }
}

impl core::ops::Neg for Angle {
    type Output = Angle;

    /// The angle that brings `self` back to zero.
    fn neg(self) -> (r: Angle)
        ensures
            r@ == wrap(-self@),
    {
        proof {
            use_type_invariant(self);
        }
        Angle { degrees: (360 - self.degrees) % 360 }
    }
}

impl NegSpecImpl for Angle {
    open spec fn obeys_neg_spec() -> bool {
        true
    }

    open spec fn neg_req(self) -> bool {
        true
    }

    closed spec fn neg_spec(self) -> Angle {
        Angle { degrees: ((360 - self.degrees) % 360) as u16 }
    }
}

impl core::ops::Add for Angle {
    type Output = Angle;

    /// The sum of the degrees, less whole turns.
    fn add(self, other: Angle) -> (r: Angle)
        ensures
            r@ == wrap(self@ + other@),
    {
        proof {
            use_type_invariant(self);
            use_type_invariant(other);
        }
        let total: u32 = self.degrees as u32 + other.degrees as u32;
        Angle { degrees: (total % 360) as u16 }
    }
}

impl AddSpecImpl for Angle {
    open spec fn obeys_add_spec() -> bool {
        true
    }

    open spec fn add_req(self, other: Angle) -> bool {
        true
    }

    closed spec fn add_spec(self, other: Angle) -> Angle {
        Angle { degrees: ((self.degrees + other.degrees) % 360) as u16 }
    }
}

impl core::ops::Sub for Angle {
    type Output = Angle;

    /// The difference of the degrees, brought into range by a whole turn.
    fn sub(self, other: Angle) -> (r: Angle)
        ensures
            r@ == wrap(self@ - other@),
    {
        proof {
            use_type_invariant(self);
            use_type_invariant(other);
        }
        self + other.neg()
    }
}

impl SubSpecImpl for Angle {
    open spec fn obeys_sub_spec() -> bool {
        true
    }

    open spec fn sub_req(self, other: Angle) -> bool {
        true
    }

    closed spec fn sub_spec(self, other: Angle) -> Angle {
        Angle { degrees: ((self.degrees + (360 - other.degrees) % 360) % 360) as u16 }
    }
}

impl core::ops::Mul for Angle {
    type Output = Angle;

    /// The product of the degrees, less whole turns.
    fn mul(self, other: Angle) -> (r: Angle)
        ensures
            r@ == wrap(self@ * other@),
    {
        proof {
            use_type_invariant(self);
            use_type_invariant(other);
            assert(0 <= self.degrees * other.degrees <= 359 * 359) by (nonlinear_arith)
                requires
                    0 <= self.degrees < 360,
                    0 <= other.degrees < 360,
            ;
        }
        let product: u32 = (self.degrees as u32) * (other.degrees as u32);
        Angle { degrees: (product % 360) as u16 }
    }
}

impl MulSpecImpl for Angle {
    open spec fn obeys_mul_spec() -> bool {
        true
    }

    open spec fn mul_req(self, other: Angle) -> bool {
        true
    }

    closed spec fn mul_spec(self, other: Angle) -> Angle {
        Angle { degrees: ((self.degrees * other.degrees) % 360) as u16 }
    }
}

impl core::ops::Div for Angle {
    type Output = Angle;

    /// The whole quotient of the degrees; `other` is not the zero angle.
    fn div(self, other: Angle) -> (r: Angle)
        ensures
            r@ == wrap(self@ / other@),
    {
        proof {
            use_type_invariant(self);
            use_type_invariant(other);
        }
        let quotient: u32 = (self.degrees as u32) / (other.degrees as u32);
        Angle { degrees: (quotient % 360) as u16 }
    }
}

impl DivSpecImpl for Angle {
    open spec fn obeys_div_spec() -> bool {
        true
    }

    open spec fn div_req(self, other: Angle) -> bool {
        other@ != 0
    }

    closed spec fn div_spec(self, other: Angle) -> Angle {
        Angle { degrees: ((self.degrees / other.degrees) % 360) as u16 }
    }
}

} // verus!
