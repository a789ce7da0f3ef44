//! Verified core of a stochastic path tracer.
//!
//! The numeric engine (vector algebra, quadratic intersection, Monte Carlo
//! sampling) runs on floating point and therefore lives outside this crate.
//! What is verified here is everything the renderer decides and assembles
//! discretely: the 8-bit color type of the frame buffer, the row-major
//! assembly of independently rendered scanlines, the bounded-recursion
//! control of the radiance estimator, the scatter/absorb rules of the
//! material variants, and the root selection of the ray-sphere solver.

pub mod camera;
pub mod color;
pub mod frame;
pub mod material;
pub mod sphere;
pub mod tracer;
