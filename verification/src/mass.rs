//! A mass tagged as pounds or grams.

use vstd::prelude::*;

use crate::float_bits::{eq_bits, f64_eq, f64_lt, f64_mul, f64_sub, lt_bits, mul_bits, sub_bits};

verus! {

/// The bit pattern of the IEEE-754 binary64 factor that converts pounds to
/// grams: the binary64 value nearest the exact number of grams in one
/// avoirdupois pound, 45359237 times ten to the minus fifth power.
pub const G_PER_LB_BITS: u64 = 0x407c597a58f7121b;

/// The bit pattern of the IEEE-754 binary64 factor that converts grams to
/// pounds: the binary64 value nearest 220462 times ten to the minus eighth
/// power.
pub const LB_PER_G_BITS: u64 = 0x3f620f6c599a7b16;

/// Type that represents a mass in either pounds or grams.
///
/// The payload of each variant is the bit pattern of the IEEE-754 binary64
/// measure of the mass in that unit. Conversion, scaling and subtraction
/// each return a new mass and never mutate in place.
#[derive(Debug, Clone, Copy)]
pub enum Mass {
    /// Pounds
    Lb(u64),
    /// Grams
    G(u64),
}

impl Mass {
    /// The stored bit pattern, regardless of the unit tag.
    pub open spec fn spec_value(self) -> u64 {
        match self {
            Mass::Lb(b) => b,
            Mass::G(b) => b,
        }
    }

    /// What [`Mass::as_gram`] returns: a gram mass whose value is unchanged
    /// if the mass is already in grams, and otherwise is the pound value
    /// multiplied by the pound-to-gram factor.
    pub open spec fn spec_as_gram(self) -> Mass {
        match self {
            Mass::Lb(l) => Mass::G(f64_mul(l, G_PER_LB_BITS)),
            Mass::G(g) => Mass::G(g),
        }
    }

    /// What [`Mass::as_lb`] returns: a pound mass whose value is unchanged
    /// if the mass is already in pounds, and otherwise is the gram value
    /// multiplied by the gram-to-pound factor.
    pub open spec fn spec_as_lb(self) -> Mass {
        match self {
            Mass::Lb(l) => Mass::Lb(l),
            Mass::G(g) => Mass::Lb(f64_mul(g, LB_PER_G_BITS)),
        }
    }

    /// What [`Mass::mul`] returns: the stored value multiplied by the given
    /// dimensionless factor, under the unchanged unit tag.
    pub open spec fn spec_mul(self, factor: u64) -> Mass {
        match self {
            Mass::Lb(l) => Mass::Lb(f64_mul(l, factor)),
            Mass::G(g) => Mass::G(f64_mul(g, factor)),
        }
    }

    /// What [`Mass::sub`] returns: the subtrahend is converted into the
    /// minuend's unit and subtracted from it, and the difference carries the
    /// minuend's unit.
    pub open spec fn spec_sub(self, rhs: Mass) -> Mass {
        match self {
            Mass::Lb(l) => Mass::Lb(f64_sub(l, rhs.spec_as_lb().spec_value())),
            Mass::G(g) => Mass::G(f64_sub(g, rhs.spec_as_gram().spec_value())),
        }
    }

    /// What `==` on masses means: the unit tags match and the stored values
    /// compare equal as IEEE-754 values, with no conversion and no
    /// tolerance.
    pub open spec fn spec_eq(&self, rhs: &Mass) -> bool {
        match (*self, *rhs) {
            (Mass::Lb(l), Mass::Lb(r)) => f64_eq(l, r),
            (Mass::G(l), Mass::G(r)) => f64_eq(l, r),
            _ => false,
        }
    }

    /// What `partial_cmp` on masses means: within one unit the stored
    /// values are ordered as IEEE-754 values (a NaN is unordered), and any
    /// pound mass comes before any gram mass.
    pub open spec fn spec_partial_cmp(&self, rhs: &Mass) -> Option<core::cmp::Ordering> {
        match (*self, *rhs) {
            (Mass::Lb(l), Mass::Lb(r)) => spec_cmp_values(l, r),
            (Mass::G(l), Mass::G(r)) => spec_cmp_values(l, r),
            (Mass::Lb(_), Mass::G(_)) => Some(core::cmp::Ordering::Less),
            (Mass::G(_), Mass::Lb(_)) => Some(core::cmp::Ordering::Greater),
        }
    }

    /// The stored bit pattern, regardless of the unit tag; the caller must
    /// track which unit the mass is in.
    pub fn value_bits(&self) -> (r: u64)
        ensures
            r == self.spec_value(),
    {
        match self {
            Mass::Lb(b) => *b,
            Mass::G(b) => *b,
        }
    }

    /// Returns the mass as a gram mass. A gram mass keeps its value
    /// unchanged; a pound mass is converted.
    pub fn as_gram(&self) -> (r: Mass)
        ensures
            r == self.spec_as_gram(),
            r is G,
    {
        Mass::G(
            match self {
                Mass::Lb(l) => mul_bits(*l, G_PER_LB_BITS),
                Mass::G(g) => *g,
            },
        )
    }

    /// Returns the mass as a pound mass. A pound mass keeps its value
    /// unchanged; a gram mass is converted.
    pub fn as_lb(&self) -> (r: Mass)
        ensures
            r == self.spec_as_lb(),
            r is Lb,
    {
        Mass::Lb(
            match self {
                Mass::Lb(l) => *l,
                Mass::G(g) => mul_bits(*g, LB_PER_G_BITS),
            },
        )
    }

    /// Scales the mass by a dimensionless factor, given as a bit pattern.
    /// The unit tag is preserved; no conversion is applied.
    pub fn mul(self, factor: u64) -> (r: Mass)
        ensures
            r == self.spec_mul(factor),
    {
        match self {
            Mass::Lb(l) => Mass::Lb(mul_bits(l, factor)),
            Mass::G(g) => Mass::G(mul_bits(g, factor)),
        }
    }

    /// Subtracts `rhs` from this mass: `rhs` is first converted into this
    /// mass's unit, and the difference carries this mass's unit.
    pub fn sub(self, rhs: Mass) -> (r: Mass)
        ensures
            r == self.spec_sub(rhs),
    {
        match self {
            Mass::Lb(l) => Mass::Lb(sub_bits(l, rhs.as_lb().value_bits())),
            Mass::G(g) => Mass::G(sub_bits(g, rhs.as_gram().value_bits())),
        }
    }
}

/// How two IEEE-754 values with the given bit patterns are ordered: exactly
/// one of less, equal and greater when both are numbers, and no ordering
/// when either is a NaN.
pub open spec fn spec_cmp_values(l: u64, r: u64) -> Option<core::cmp::Ordering> {
    if f64_lt(l, r) {
        Some(core::cmp::Ordering::Less)
    } else if f64_eq(l, r) {
        Some(core::cmp::Ordering::Equal)
    } else if f64_lt(r, l) {
        Some(core::cmp::Ordering::Greater)
    } else {
        None
    }
}

/// Orders two bit patterns as the IEEE-754 values they denote.
fn cmp_values(l: u64, r: u64) -> (res: Option<core::cmp::Ordering>)
    ensures
        res == spec_cmp_values(l, r),
{
    if lt_bits(l, r) {
        Some(core::cmp::Ordering::Less)
    } else if eq_bits(l, r) {
        Some(core::cmp::Ordering::Equal)
    } else if lt_bits(r, l) {
        Some(core::cmp::Ordering::Greater)
    } else {
        None
    }
}

impl PartialEq for Mass {
    /// Mass equality is structural: the unit tags must match, and the stored
    /// values must compare equal as IEEE-754 values. A pound mass never
    /// equals a gram mass, however close the two are after conversion.
    fn eq(&self, rhs: &Mass) -> (r: bool) {
        match (self, rhs) {
            (Mass::Lb(l), Mass::Lb(r)) => eq_bits(*l, *r),
            (Mass::G(l), Mass::G(r)) => eq_bits(*l, *r),
            _ => false,
        }
    }
}

impl vstd::std_specs::cmp::PartialEqSpecImpl for Mass {
    open spec fn obeys_eq_spec() -> bool {
        true
    }

    open spec fn eq_spec(&self, rhs: &Mass) -> bool {
        self.spec_eq(rhs)
    }
}

impl PartialOrd for Mass {
    /// Within one unit, masses are ordered as their IEEE-754 values; across
    /// units, pound masses come before gram masses, whatever the values.
    fn partial_cmp(&self, rhs: &Mass) -> (r: Option<core::cmp::Ordering>) {
        match (self, rhs) {
            (Mass::Lb(l), Mass::Lb(r)) => cmp_values(*l, *r),
            (Mass::G(l), Mass::G(r)) => cmp_values(*l, *r),
            (Mass::Lb(_), Mass::G(_)) => Some(core::cmp::Ordering::Less),
            (Mass::G(_), Mass::Lb(_)) => Some(core::cmp::Ordering::Greater),
        }
    }
}

impl vstd::std_specs::cmp::PartialOrdSpecImpl for Mass {
    open spec fn obeys_partial_cmp_spec() -> bool {
        true
    }

    open spec fn partial_cmp_spec(&self, rhs: &Mass) -> Option<core::cmp::Ordering> {
        self.spec_partial_cmp(rhs)
    }
}

/// Subtraction keeps the minuend's unit: the difference is in pounds exactly
/// when the minuend is in pounds, and in grams exactly when the minuend is
/// in grams, whatever unit the subtrahend is in.
pub proof fn lemma_sub_keeps_unit(a: Mass, b: Mass)
    ensures
        (a.spec_sub(b) is Lb) == (a is Lb),
        (a.spec_sub(b) is G) == (a is G),
{
}

/// Scaling keeps the unit: a scaled mass is in pounds exactly when the
/// original is in pounds, and in grams exactly when the original is in
/// grams.
pub proof fn lemma_mul_keeps_unit(a: Mass, factor: u64)
    ensures
        (a.spec_mul(factor) is Lb) == (a is Lb),
        (a.spec_mul(factor) is G) == (a is G),
{
}

/// Mass equality never crosses units: equal masses carry the same unit tag.
/// In particular, a pound mass and a gram mass are never equal, even when
/// conversion would make their values match.
pub proof fn lemma_eq_needs_same_unit(a: Mass, b: Mass)
    ensures
        a.spec_eq(&b) ==> (a is Lb) == (b is Lb),
        a.spec_eq(&b) ==> (a is G) == (b is G),
{
}

} // verus!
