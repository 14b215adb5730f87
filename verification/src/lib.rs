//! Engineering unit conversions over fixed-point values.
//!
//! Measurements are carried as [`fixed::Fixed`], a scalar holding a whole
//! number of millionths of a unit, so every conversion is exact integer
//! arithmetic: a multiplication by a decimal ratio, rounded to the nearest
//! representable value. Four families of conversions are provided — length,
//! temperature, pressure and mass — and each family proves how far a
//! conversion followed by its inverse can drift from the original value.

pub mod fixed;
pub mod length;
pub mod mass;
pub mod pressure;
pub mod rounding;
pub mod temperature;
