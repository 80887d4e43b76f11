//! Brightness-adaptive grain-mask engine.
//!
//! Given a frame's average luminance and a scaling constant, the engine
//! derives a per-sample mask value in [0, 1] through a fixed quintic
//! polynomial raised to the power `average² · scaling`, materialises the
//! values over a 256-entry lookup table, and streams an input plane through
//! that table to produce a single-channel output plane.
//!
//! All quantities are carried as Q32.32 fixed-point numbers (`Q32`) or as
//! exactly scaled integers, so every arithmetic step here is exact and
//! verified. The one transcendental step — raising the polynomial to a
//! non-zero power — cannot be carried out in exact integer arithmetic; the
//! host side evaluates it in floating point and hands the resulting mask
//! values in, already fixed-point encoded, and this crate proves everything
//! that holds downstream of (and independently of) those values.

pub mod fixed;
pub mod grain;
pub mod mask;
pub mod plane;
pub mod poly;

pub use fixed::Q32;
