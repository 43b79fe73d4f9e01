//! Floating-point bit patterns as keys of ordered and hashed collections.
//!
//! The numeric comparison of IEEE 754 leaves NaN unordered and makes `-0.0`
//! equal to `+0.0`, so a float is no key for a map or a set. The two types of
//! this crate rank every bit pattern by the standard's `totalOrder` instead, and
//! test for equality and hash in agreement with that ranking.

mod total_f32;
mod total_f64;

pub use total_f32::TotalF32;
pub use total_f64::TotalF64;
