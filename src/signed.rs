//! Conversions from the fixed-width signed kinds into the fixed-width kinds.
use crate::kind::{saturate, IntKind};
use crate::saturate::SaturatingElement;
use vstd::prelude::*;

verus! {

// i8 into itself: the value is kept.
impl SaturatingElement<i8> for i8 {
    open spec fn saturated(self) -> i8 {
        saturate(self as int, IntKind::I8) as i8
    }

    #[inline]
    fn as_element(self) -> i8 {
        self
    }
}

// i8 into i16, i32, i64, i128: `Strategy::Lossless`, the target holds every
// source value.
impl SaturatingElement<i16> for i8 {
    open spec fn saturated(self) -> i16 {
        saturate(self as int, IntKind::I16) as i16
    }

    #[inline]
    fn as_element(self) -> i16 {
        self as i16
    }
}

impl SaturatingElement<i32> for i8 {
    open spec fn saturated(self) -> i32 {
        saturate(self as int, IntKind::I32) as i32
    }

    #[inline]
    fn as_element(self) -> i32 {
        self as i32
    }
}

impl SaturatingElement<i64> for i8 {
    open spec fn saturated(self) -> i64 {
        saturate(self as int, IntKind::I64) as i64
    }

    #[inline]
    fn as_element(self) -> i64 {
        self as i64
    }
}

impl SaturatingElement<i128> for i8 {
    open spec fn saturated(self) -> i128 {
        saturate(self as int, IntKind::I128) as i128
    }

    #[inline]
    fn as_element(self) -> i128 {
        self as i128
    }
}

// i8 into u8, u16, u32, u64, u128: `Strategy::ClampToZero`, the target holds
// every non-negative source value.
impl SaturatingElement<u8> for i8 {
    open spec fn saturated(self) -> u8 {
        saturate(self as int, IntKind::U8) as u8
    }

    #[inline]
    fn as_element(self) -> u8 {
        self.max(0) as u8
    }
}

impl SaturatingElement<u16> for i8 {
    open spec fn saturated(self) -> u16 {
        saturate(self as int, IntKind::U16) as u16
    }

    #[inline]
    fn as_element(self) -> u16 {
        self.max(0) as u16
    }
}

impl SaturatingElement<u32> for i8 {
    open spec fn saturated(self) -> u32 {
        saturate(self as int, IntKind::U32) as u32
    }

    #[inline]
    fn as_element(self) -> u32 {
        self.max(0) as u32
    }
}

impl SaturatingElement<u64> for i8 {
    open spec fn saturated(self) -> u64 {
        saturate(self as int, IntKind::U64) as u64
    }

    #[inline]
    fn as_element(self) -> u64 {
        self.max(0) as u64
    }
}

impl SaturatingElement<u128> for i8 {
    open spec fn saturated(self) -> u128 {
        saturate(self as int, IntKind::U128) as u128
    }

    #[inline]
    fn as_element(self) -> u128 {
        self.max(0) as u128
    }
}

// i16 into itself: the value is kept.
impl SaturatingElement<i16> for i16 {
    open spec fn saturated(self) -> i16 {
        saturate(self as int, IntKind::I16) as i16
    }

    #[inline]
    fn as_element(self) -> i16 {
        self
    }
}

// i16 into i32, i64, i128: `Strategy::Lossless`, the target holds every source
// value.
impl SaturatingElement<i32> for i16 {
    open spec fn saturated(self) -> i32 {
        saturate(self as int, IntKind::I32) as i32
    }

    #[inline]
    fn as_element(self) -> i32 {
        self as i32
    }
}

impl SaturatingElement<i64> for i16 {
    open spec fn saturated(self) -> i64 {
        saturate(self as int, IntKind::I64) as i64
    }

    #[inline]
    fn as_element(self) -> i64 {
        self as i64
    }
}

impl SaturatingElement<i128> for i16 {
    open spec fn saturated(self) -> i128 {
        saturate(self as int, IntKind::I128) as i128
    }

    #[inline]
    fn as_element(self) -> i128 {
        self as i128
    }
}

// i16 into u16, u32, u64, u128: `Strategy::ClampToZero`, the target holds every
// non-negative source value.
impl SaturatingElement<u16> for i16 {
    open spec fn saturated(self) -> u16 {
        saturate(self as int, IntKind::U16) as u16
    }

    #[inline]
    fn as_element(self) -> u16 {
        self.max(0) as u16
    }
}

impl SaturatingElement<u32> for i16 {
    open spec fn saturated(self) -> u32 {
        saturate(self as int, IntKind::U32) as u32
    }

    #[inline]
    fn as_element(self) -> u32 {
        self.max(0) as u32
    }
}

impl SaturatingElement<u64> for i16 {
    open spec fn saturated(self) -> u64 {
        saturate(self as int, IntKind::U64) as u64
    }

    #[inline]
    fn as_element(self) -> u64 {
        self.max(0) as u64
    }
}

impl SaturatingElement<u128> for i16 {
    open spec fn saturated(self) -> u128 {
        saturate(self as int, IntKind::U128) as u128
    }

    #[inline]
    fn as_element(self) -> u128 {
        self.max(0) as u128
    }
}

// i16 into u8, i8: `Strategy::ClampBoth`, either bound of the target can be
// crossed.
impl SaturatingElement<u8> for i16 {
    open spec fn saturated(self) -> u8 {
        saturate(self as int, IntKind::U8) as u8
    }

    #[inline]
    fn as_element(self) -> u8 {
        self.max(u8::MIN as i16).min(u8::MAX as i16) as u8
    }
}

impl SaturatingElement<i8> for i16 {
    open spec fn saturated(self) -> i8 {
        saturate(self as int, IntKind::I8) as i8
    }

    #[inline]
    fn as_element(self) -> i8 {
        self.max(i8::MIN as i16).min(i8::MAX as i16) as i8
    }
}

// i32 into itself: the value is kept.
impl SaturatingElement<i32> for i32 {
    open spec fn saturated(self) -> i32 {
        saturate(self as int, IntKind::I32) as i32
    }

    #[inline]
    fn as_element(self) -> i32 {
        self
    }
}

// i32 into i64, i128: `Strategy::Lossless`, the target holds every source
// value.
impl SaturatingElement<i64> for i32 {
    open spec fn saturated(self) -> i64 {
        saturate(self as int, IntKind::I64) as i64
    }

    #[inline]
    fn as_element(self) -> i64 {
        self as i64
    }
}

impl SaturatingElement<i128> for i32 {
    open spec fn saturated(self) -> i128 {
        saturate(self as int, IntKind::I128) as i128
    }

    #[inline]
    fn as_element(self) -> i128 {
        self as i128
    }
}

// i32 into u32, u64, u128: `Strategy::ClampToZero`, the target holds every non-
// negative source value.
impl SaturatingElement<u32> for i32 {
    open spec fn saturated(self) -> u32 {
        saturate(self as int, IntKind::U32) as u32
    }

    #[inline]
    fn as_element(self) -> u32 {
        self.max(0) as u32
    }
}

impl SaturatingElement<u64> for i32 {
    open spec fn saturated(self) -> u64 {
        saturate(self as int, IntKind::U64) as u64
    }

    #[inline]
    fn as_element(self) -> u64 {
        self.max(0) as u64
    }
}

impl SaturatingElement<u128> for i32 {
    open spec fn saturated(self) -> u128 {
        saturate(self as int, IntKind::U128) as u128
    }

    #[inline]
    fn as_element(self) -> u128 {
        self.max(0) as u128
    }
}

// i32 into u8, u16, i8, i16: `Strategy::ClampBoth`, either bound of the target
// can be crossed.
impl SaturatingElement<u8> for i32 {
    open spec fn saturated(self) -> u8 {
        saturate(self as int, IntKind::U8) as u8
    }

    #[inline]
    fn as_element(self) -> u8 {
        self.max(u8::MIN as i32).min(u8::MAX as i32) as u8
    }
}

impl SaturatingElement<u16> for i32 {
    open spec fn saturated(self) -> u16 {
        saturate(self as int, IntKind::U16) as u16
    }

    #[inline]
    fn as_element(self) -> u16 {
        self.max(u16::MIN as i32).min(u16::MAX as i32) as u16
    }
}

impl SaturatingElement<i8> for i32 {
    open spec fn saturated(self) -> i8 {
        saturate(self as int, IntKind::I8) as i8
    }

    #[inline]
    fn as_element(self) -> i8 {
        self.max(i8::MIN as i32).min(i8::MAX as i32) as i8
    }
}

impl SaturatingElement<i16> for i32 {
    open spec fn saturated(self) -> i16 {
        saturate(self as int, IntKind::I16) as i16
    }

    #[inline]
    fn as_element(self) -> i16 {
        self.max(i16::MIN as i32).min(i16::MAX as i32) as i16
    }
}

// i64 into itself: the value is kept.
impl SaturatingElement<i64> for i64 {
    open spec fn saturated(self) -> i64 {
        saturate(self as int, IntKind::I64) as i64
    }

    #[inline]
    fn as_element(self) -> i64 {
        self
    }
}

// i64 into i128: `Strategy::Lossless`, the target holds every source value.
impl SaturatingElement<i128> for i64 {
    open spec fn saturated(self) -> i128 {
        saturate(self as int, IntKind::I128) as i128
    }

    #[inline]
    fn as_element(self) -> i128 {
        self as i128
    }
}

// i64 into u64, u128: `Strategy::ClampToZero`, the target holds every non-
// negative source value.
impl SaturatingElement<u64> for i64 {
    open spec fn saturated(self) -> u64 {
        saturate(self as int, IntKind::U64) as u64
    }

    #[inline]
    fn as_element(self) -> u64 {
        self.max(0) as u64
    }
}

impl SaturatingElement<u128> for i64 {
    open spec fn saturated(self) -> u128 {
        saturate(self as int, IntKind::U128) as u128
    }

    #[inline]
    fn as_element(self) -> u128 {
        self.max(0) as u128
    }
}

// i64 into u8, u16, u32, i8, i16, i32: `Strategy::ClampBoth`, either bound of
// the target can be crossed.
impl SaturatingElement<u8> for i64 {
    open spec fn saturated(self) -> u8 {
        saturate(self as int, IntKind::U8) as u8
    }

    #[inline]
    fn as_element(self) -> u8 {
        self.max(u8::MIN as i64).min(u8::MAX as i64) as u8
    }
}

impl SaturatingElement<u16> for i64 {
    open spec fn saturated(self) -> u16 {
        saturate(self as int, IntKind::U16) as u16
    }

    #[inline]
    fn as_element(self) -> u16 {
        self.max(u16::MIN as i64).min(u16::MAX as i64) as u16
    }
}

impl SaturatingElement<u32> for i64 {
    open spec fn saturated(self) -> u32 {
        saturate(self as int, IntKind::U32) as u32
    }

    #[inline]
    fn as_element(self) -> u32 {
        self.max(u32::MIN as i64).min(u32::MAX as i64) as u32
    }
}

impl SaturatingElement<i8> for i64 {
    open spec fn saturated(self) -> i8 {
        saturate(self as int, IntKind::I8) as i8
    }

    #[inline]
    fn as_element(self) -> i8 {
        self.max(i8::MIN as i64).min(i8::MAX as i64) as i8
    }
}

impl SaturatingElement<i16> for i64 {
    open spec fn saturated(self) -> i16 {
        saturate(self as int, IntKind::I16) as i16
    }

    #[inline]
    fn as_element(self) -> i16 {
        self.max(i16::MIN as i64).min(i16::MAX as i64) as i16
    }
}

impl SaturatingElement<i32> for i64 {
    open spec fn saturated(self) -> i32 {
        saturate(self as int, IntKind::I32) as i32
    }

    #[inline]
    fn as_element(self) -> i32 {
        self.max(i32::MIN as i64).min(i32::MAX as i64) as i32
    }
}

// i128 into itself: the value is kept.
impl SaturatingElement<i128> for i128 {
    open spec fn saturated(self) -> i128 {
        saturate(self as int, IntKind::I128) as i128
    }

    #[inline]
    fn as_element(self) -> i128 {
        self
    }
}

// i128 into u128: `Strategy::ClampToZero`, the target holds every non-negative
// source value.
impl SaturatingElement<u128> for i128 {
    open spec fn saturated(self) -> u128 {
        saturate(self as int, IntKind::U128) as u128
    }

    #[inline]
    fn as_element(self) -> u128 {
        self.max(0) as u128
    }
}

// i128 into u8, u16, u32, u64, i8, i16, i32, i64: `Strategy::ClampBoth`, either
// bound of the target can be crossed.
impl SaturatingElement<u8> for i128 {
    open spec fn saturated(self) -> u8 {
        saturate(self as int, IntKind::U8) as u8
    }

    #[inline]
    fn as_element(self) -> u8 {
        self.max(u8::MIN as i128).min(u8::MAX as i128) as u8
    }
}

impl SaturatingElement<u16> for i128 {
    open spec fn saturated(self) -> u16 {
        saturate(self as int, IntKind::U16) as u16
    }

    #[inline]
    fn as_element(self) -> u16 {
        self.max(u16::MIN as i128).min(u16::MAX as i128) as u16
    }
}

impl SaturatingElement<u32> for i128 {
    open spec fn saturated(self) -> u32 {
        saturate(self as int, IntKind::U32) as u32
    }

    #[inline]
    fn as_element(self) -> u32 {
        self.max(u32::MIN as i128).min(u32::MAX as i128) as u32
    }
}

impl SaturatingElement<u64> for i128 {
    open spec fn saturated(self) -> u64 {
        saturate(self as int, IntKind::U64) as u64
    }

    #[inline]
    fn as_element(self) -> u64 {
        self.max(u64::MIN as i128).min(u64::MAX as i128) as u64
    }
}

impl SaturatingElement<i8> for i128 {
    open spec fn saturated(self) -> i8 {
        saturate(self as int, IntKind::I8) as i8
    }

    #[inline]
    fn as_element(self) -> i8 {
        self.max(i8::MIN as i128).min(i8::MAX as i128) as i8
    }
}

impl SaturatingElement<i16> for i128 {
    open spec fn saturated(self) -> i16 {
        saturate(self as int, IntKind::I16) as i16
    }

    #[inline]
    fn as_element(self) -> i16 {
        self.max(i16::MIN as i128).min(i16::MAX as i128) as i16
    }
}

impl SaturatingElement<i32> for i128 {
    open spec fn saturated(self) -> i32 {
        saturate(self as int, IntKind::I32) as i32
    }

    #[inline]
    fn as_element(self) -> i32 {
        self.max(i32::MIN as i128).min(i32::MAX as i128) as i32
    }
}

impl SaturatingElement<i64> for i128 {
    open spec fn saturated(self) -> i64 {
        saturate(self as int, IntKind::I64) as i64
    }

    #[inline]
    fn as_element(self) -> i64 {
        self.max(i64::MIN as i128).min(i64::MAX as i128) as i64
    }
}

} // verus!
