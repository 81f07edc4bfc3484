//! Value types for two-dimensional static-force calculations: angles in
//! degrees or radians, masses in pounds or grams, and force vectors given as
//! a magnitude (a mass) together with an angle, with decomposition into
//! vertical and horizontal components.
//!
//! Every numeric value is carried as the `u64` bit pattern of an IEEE-754
//! binary64 value. The verifier does not reason about floating-point
//! arithmetic, so each primitive arithmetic step goes through the small
//! trusted interface in [`float_bits`], and every contract states exactly
//! which primitive operations are applied to which bit patterns.
//!
//! No operation rejects any input: a NaN or an infinity is carried like any
//! other bit pattern, and the IEEE-754 primitives give it IEEE-754's
//! behavior — in particular, a NaN propagates through arithmetic and
//! compares equal to nothing, not even to itself.

pub mod angle;
pub mod float_bits;
pub mod mass;
pub mod vector;

pub use angle::Angle;
pub use mass::Mass;
pub use vector::Vector;

