//! Scalar abstraction over the four numeric representations used by generic
//! linear-algebra code: 32- and 64-bit reals and their complex counterparts.
//!
//! Values are modelled by their IEEE-754 bit patterns, so every statement the
//! library makes about them is exact.

pub mod repr;
pub mod types;
pub mod reals;
pub mod complexes;
