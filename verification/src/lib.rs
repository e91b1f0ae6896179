//! Two- and three-component vectors of IEEE-754 single-precision numbers,
//! handled through their bit patterns.
//!
//! Everything here is exact: construction, sign flips, the strict comparison
//! and the decisions that sit around the rounding arithmetic (is a number
//! zero, is it below a tolerance, where does it land when clamped to the unit
//! interval). Each operation is stated over the number that a bit pattern
//! encodes and proved to match it.
pub mod angle;
pub mod scalar;
pub mod vec2;
pub mod vec3;

pub use crate::angle::angle_cosine;
pub use crate::scalar::{Number, Scalar};
pub use crate::vec2::Vec2;
pub use crate::vec3::Vec3;
