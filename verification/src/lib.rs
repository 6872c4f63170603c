//! Float-free kernel of a small ray tracer.
//!
//! Every real number is carried as an IEEE 754 binary64 word
//! ([`scalar::Scalar`]). The kernel stores, moves, orders and selects such
//! words; rounding arithmetic on them is left to the caller.

pub mod canvas;
pub mod color;
pub mod geo;
pub mod light;
pub mod material;
pub mod matrix;
pub mod ppm;
pub mod ray;
pub mod rt;
pub mod scalar;
