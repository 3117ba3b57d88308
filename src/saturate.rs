//! The two traits of saturating casts: the capability to be a source, and the
//! per-target conversion rule.
use vstd::prelude::*;

verus! {

/// A type whose values can be cast, saturating, into any type `T` for which it
/// supplies a conversion rule ([`SaturatingElement<T>`]).
///
/// A saturating cast clamps the value into the range of the target before
/// converting it: a value below the target's minimum becomes that minimum, a
/// value above its maximum becomes that maximum, and every other value is
/// kept. It never fails.
pub trait SaturatingCast {
    /// Casts `self` into `T`, saturating at the bounds of `T`.
    #[inline]
    fn saturating_cast<T>(self) -> (r: T)
        where Self: SaturatingElement<T>
        ensures
            r == SaturatingElement::<T>::saturated(self),
    {
        SaturatingElement::as_element(self)
    }
}

impl SaturatingCast for u8 {}

impl SaturatingCast for u16 {}

impl SaturatingCast for u32 {}

impl SaturatingCast for u64 {}

impl SaturatingCast for u128 {}

impl SaturatingCast for usize {}

impl SaturatingCast for i8 {}

impl SaturatingCast for i16 {}

impl SaturatingCast for i32 {}

impl SaturatingCast for i64 {}

impl SaturatingCast for i128 {}

impl SaturatingCast for isize {}

/// The rule that converts a value of the implementing type into `T`,
/// saturating at the bounds of `T`.
///
/// For the built-in integers, `saturated` is
/// [`saturate`](crate::kind::saturate) of the value into the target's kind. A
/// type of another crate takes part by implementing this trait for each target
/// it supports, and then [`SaturatingCast`].
pub trait SaturatingElement<T>: Copy {
    /// The value of `self` clamped into the range of `T`, as a `T`.
    spec fn saturated(self) -> T;

    /// Clamps `self` into the range of `T`, then converts it to `T`.
    fn as_element(self) -> (r: T)
        ensures
            r == self.saturated(),
    ;
}

} // verus!
