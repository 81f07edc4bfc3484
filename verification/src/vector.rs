//! A force vector given as a magnitude together with an angle.

use vstd::prelude::*;

use crate::angle::Angle;
use crate::float_bits::{cos_bits, cos_of, sin_bits, sin_of};
use crate::mass::Mass;

verus! {

/// The bit pattern of the IEEE-754 binary64 value one: the magnitude, in
/// pounds, of the unit vector.
pub const ONE_BITS: u64 = 0x3ff0000000000000;

/// The bit pattern of the IEEE-754 binary64 value zero (the positive
/// zero): the degree measure of the vertical reference axis.
pub const ZERO_BITS: u64 = 0;

/// The bit pattern of the IEEE-754 binary64 value ninety: the degree
/// measure of the horizontal reference axis.
pub const NINETY_BITS: u64 = 0x4056800000000000;

/// Type that implements a vector for force calculations.
///
/// Internally, it is represented as a magnitude (a mass) and an angle; the
/// two are always paired, and copying a vector copies both. The vector also
/// provides its component forces (vertical and horizontal), which is useful
/// for calculating composite forces.
///
/// Composing several vectors into a resultant is deliberately not provided:
/// no addition of vectors is part of this interface, and combining the
/// components of several vectors is left to the caller.
pub struct Vector {
    mag: Mass,
    angle: Angle,
}

impl Vector {
    /// The magnitude this vector was constructed with.
    pub closed spec fn spec_mag(self) -> Mass {
        self.mag
    }

    /// The angle this vector was constructed with.
    pub closed spec fn spec_angle(self) -> Angle {
        self.angle
    }

    /// A vector of magnitude one pound, with an angle of zero degrees.
    pub fn unit() -> (r: Vector)
        ensures
            r.spec_mag() == Mass::Lb(ONE_BITS),
            r.spec_angle() == Angle::Deg(ZERO_BITS),
    {
        Vector { mag: Mass::Lb(ONE_BITS), angle: Angle::Deg(ZERO_BITS) }
    }

    /// Factory based on a magnitude and an angle.
    pub fn from_mag_and_angle(mag: Mass, angle: Angle) -> (r: Vector)
        ensures
            r.spec_mag() == mag,
            r.spec_angle() == angle,
    {
        Vector { mag, angle }
    }

    /// The magnitude of the vector.
    pub fn mag(&self) -> (r: Mass)
        ensures
            r == self.spec_mag(),
    {
        self.mag
    }

    /// The angle of the vector.
    pub fn angle(&self) -> (r: &Angle)
        ensures
            *r == self.spec_angle(),
    {
        &self.angle
    }

    /// The vertical component of the vector: its magnitude is this vector's
    /// magnitude scaled by the sine of this vector's angle in radians, in
    /// this vector's mass unit, and its angle is zero degrees, the label of
    /// the vertical reference axis.
    pub fn vertical(&self) -> (r: Vector)
        ensures
            r.spec_angle() == Angle::Deg(ZERO_BITS),
            r.spec_mag() == self.spec_mag().spec_mul(
                sin_of(self.spec_angle().spec_as_rad().spec_value()),
            ),
            (r.spec_mag() is Lb) == (self.spec_mag() is Lb),
            (r.spec_mag() is G) == (self.spec_mag() is G),
    {
        let rad = self.angle.as_rad();
        let sine = sin_bits(rad.value_bits());
        Vector { mag: self.mag.mul(sine), angle: Angle::Deg(ZERO_BITS) }
    }

    /// The horizontal component of the vector: its magnitude is this
    /// vector's magnitude scaled by the cosine of this vector's angle in
    /// radians, in this vector's mass unit, and its angle is ninety degrees,
    /// the label of the horizontal reference axis.
    pub fn horizontal(&self) -> (r: Vector)
        ensures
            r.spec_angle() == Angle::Deg(NINETY_BITS),
            r.spec_mag() == self.spec_mag().spec_mul(
                cos_of(self.spec_angle().spec_as_rad().spec_value()),
            ),
            (r.spec_mag() is Lb) == (self.spec_mag() is Lb),
            (r.spec_mag() is G) == (self.spec_mag() is G),
    {
        let rad = self.angle.as_rad();
        let cosine = cos_bits(rad.value_bits());
        Vector { mag: self.mag.mul(cosine), angle: Angle::Deg(NINETY_BITS) }
    }
}

} // verus!
