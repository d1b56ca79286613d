//! Decisions of spherical great-circle navigation, taken exactly on the
//! IEEE 754 binary64 encodings of the values that the arithmetic produces.
pub mod binary64;
pub mod error;
pub mod vec3;
pub mod great_circle;
pub mod laws;
