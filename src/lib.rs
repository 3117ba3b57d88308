//! Saturating casts between the built-in integer types.
//!
//! A saturating cast clamps a value into the range of the target type, then
//! converts it: `value.clamp(T::MIN, T::MAX) as T`. It is defined between
//! every pair of `u8`, `u16`, `u32`, `u64`, `u128`, `usize`, `i8`, `i16`,
//! `i32`, `i64`, `i128` and `isize`, for every value, and never fails or
//! wraps around.
//!
//! Each conversion states its result over the model in [`kind`]: the integer
//! it returns is [`saturate`](kind::saturate) of the source value into the
//! target's kind. The general properties of the matrix are proved in [`laws`].
//!
//! Other types take part by implementing [`SaturatingElement`] for each target
//! and then [`SaturatingCast`].
pub mod kind;
pub mod laws;
mod pointer;
mod saturate;
mod signed;
mod unsigned;

pub use saturate::{SaturatingCast, SaturatingElement};
