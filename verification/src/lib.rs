//! Exact coordinate generation for an escape-time fractal renderer.
//!
//! The renderer maps a pixel grid onto a window of the complex plane by an
//! affine transform (pan by a midpoint, scale by a zoom factor and the image
//! aspect ratio). Floating point cannot be verified here, so the library
//! works in exact integer arithmetic: pan and zoom inputs are fixed-point
//! values with a 2^32 denominator, and every pixel coordinate is produced as
//! an exact integer numerator over a known positive denominator.

pub mod params;
pub mod plane;
