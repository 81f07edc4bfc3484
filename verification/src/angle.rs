//! An angle tagged as radians or degrees.

use vstd::prelude::*;

use crate::float_bits::{f64_lt, f64_mul, f64_sub, lt_bits, mul_bits, sub_bits};

verus! {

/// The bit pattern of the IEEE-754 binary64 factor that converts degrees to
/// radians: the quotient of the binary64 value nearest pi by one hundred and
/// eighty, rounded to nearest.
pub const RAD_PER_DEG_BITS: u64 = 0x3f91df46a2529d39;

/// The bit pattern of the IEEE-754 binary64 factor that converts radians to
/// degrees: one hundred and eighty divided by the binary64 value nearest pi,
/// rounded to nearest.
pub const DEG_PER_RAD_BITS: u64 = 0x404ca5dc1a63c1f8;

/// The bit pattern of the absolute tolerance under which two angle values
/// count as equal: the IEEE-754 binary64 value nearest ten to the minus
/// tenth power.
pub const TOLERANCE_BITS: u64 = 0x3ddb7cdfd9d7bdbb;

/// The bit pattern of the negated tolerance: [`TOLERANCE_BITS`] with the
/// sign bit set.
pub const NEG_TOLERANCE_BITS: u64 = 0xbddb7cdfd9d7bdbb;

/// Type that represents an angle in either degrees or radians.
///
/// The payload of each variant is the bit pattern of the IEEE-754 binary64
/// measure of the angle in that unit. Conversion methods are provided; a
/// conversion returns a new angle and never mutates in place.
#[derive(Debug)]
pub enum Angle {
    /// Radians
    Rad(u64),
    /// Degrees
    Deg(u64),
}

/// Whether the values with bit patterns `l` and `r` differ by less than the
/// fixed tolerance in absolute value: their difference lies strictly between
/// the negated tolerance and the tolerance.
pub open spec fn spec_approx_eq(l: u64, r: u64) -> bool {
    &&& f64_lt(f64_sub(l, r), TOLERANCE_BITS)
    &&& f64_lt(NEG_TOLERANCE_BITS, f64_sub(l, r))
}

/// Compares two bit patterns for equality under the fixed absolute
/// tolerance.
fn approx_eq(l: u64, r: u64) -> (res: bool)
    ensures
        res == spec_approx_eq(l, r),
{
    let d = sub_bits(l, r);
    lt_bits(d, TOLERANCE_BITS) && lt_bits(NEG_TOLERANCE_BITS, d)
}

impl Angle {
    /// The stored bit pattern, regardless of the unit tag.
    pub open spec fn spec_value(self) -> u64 {
        match self {
            Angle::Rad(b) => b,
            Angle::Deg(b) => b,
        }
    }

    /// What [`Angle::as_rad`] returns: a radian angle whose value is
    /// unchanged if the angle is already in radians, and otherwise is the
    /// degree value multiplied by the degree-to-radian factor.
    pub open spec fn spec_as_rad(self) -> Angle {
        match self {
            Angle::Rad(r) => Angle::Rad(r),
            Angle::Deg(d) => Angle::Rad(f64_mul(d, RAD_PER_DEG_BITS)),
        }
    }

    /// What [`Angle::as_deg`] returns: a degree angle whose value is
    /// unchanged if the angle is already in degrees, and otherwise is the
    /// radian value multiplied by the radian-to-degree factor.
    pub open spec fn spec_as_deg(self) -> Angle {
        match self {
            Angle::Deg(d) => Angle::Deg(d),
            Angle::Rad(r) => Angle::Deg(f64_mul(r, DEG_PER_RAD_BITS)),
        }
    }

    /// What `==` on angles means: the right-hand side is converted into the
    /// left-hand side's unit, and the two values must then differ by less
    /// than the fixed tolerance.
    pub open spec fn spec_eq(&self, rhs: &Angle) -> bool {
        match *self {
            Angle::Rad(l) => spec_approx_eq(l, rhs.spec_as_rad().spec_value()),
            Angle::Deg(l) => spec_approx_eq(l, rhs.spec_as_deg().spec_value()),
        }
    }

    /// The stored bit pattern, regardless of the unit tag; the caller must
    /// track which unit the angle is in.
    pub fn value_bits(&self) -> (r: u64)
        ensures
            r == self.spec_value(),
    {
        match self {
            Angle::Rad(b) => *b,
            Angle::Deg(b) => *b,
        }
    }

    /// Returns the angle as a radian angle. A radian angle is returned with
    /// its value unchanged; a degree angle is converted.
    pub fn as_rad(&self) -> (r: Angle)
        ensures
            r == self.spec_as_rad(),
            r is Rad,
    {
        match self {
            Angle::Rad(r) => Angle::Rad(*r),
            Angle::Deg(d) => Angle::Rad(mul_bits(*d, RAD_PER_DEG_BITS)),
        }
    }

    /// Returns the angle as a degree angle. A degree angle is returned with
    /// its value unchanged; a radian angle is converted.
    pub fn as_deg(&self) -> (r: Angle)
        ensures
            r == self.spec_as_deg(),
            r is Deg,
    {
        match self {
            Angle::Deg(d) => Angle::Deg(*d),
            Angle::Rad(r) => Angle::Deg(mul_bits(*r, DEG_PER_RAD_BITS)),
        }
    }
}

impl PartialEq for Angle {
    /// Two angles are equal exactly when, after converting the right-hand
    /// side into the left-hand side's unit, the two values differ by less
    /// than the fixed absolute tolerance.
    fn eq(&self, rhs: &Angle) -> (r: bool) {
        match self {
            Angle::Rad(l) => {
                let converted = rhs.as_rad();
                approx_eq(*l, converted.value_bits())
            },
            Angle::Deg(l) => {
                let converted = rhs.as_deg();
                approx_eq(*l, converted.value_bits())
            },
        }
    }
}

impl vstd::std_specs::cmp::PartialEqSpecImpl for Angle {
    open spec fn obeys_eq_spec() -> bool {
        true
    }

    open spec fn eq_spec(&self, rhs: &Angle) -> bool {
        self.spec_eq(rhs)
    }
}

/// Converting an angle that is already in radians applies no arithmetic at
/// all: the same angle comes back, bit for bit.
pub proof fn lemma_as_rad_identity(a: Angle)
    requires
        a is Rad,
    ensures
        a.spec_as_rad() == a,
{
}

/// Converting an angle that is already in degrees applies no arithmetic at
/// all: the same angle comes back, bit for bit.
pub proof fn lemma_as_deg_identity(a: Angle)
    requires
        a is Deg,
    ensures
        a.spec_as_deg() == a,
{
}

} // verus!
