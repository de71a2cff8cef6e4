//! Resolution of abstract vector-graphics paint specifications (solid color,
//! linear gradient, radial gradient, tiled pattern) into concrete paint
//! objects for a 2D rendering backend.
//!
//! All geometry and opacity values are fixed-point integers in micro-units
//! (one user-space unit is 1_000_000), so every computation here is exact
//! integer arithmetic with a documented rounding rule. A thin unverified
//! adapter can convert floating-point scene data into these units.

pub mod fixed;
pub mod geom;
pub mod model;
pub mod paint;
pub mod gradient;
pub mod pattern;
pub mod resolver;
pub mod laws;
