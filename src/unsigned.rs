//! Conversions from the fixed-width unsigned kinds into the fixed-width kinds.
use crate::kind::{saturate, IntKind};
use crate::saturate::SaturatingElement;
use vstd::prelude::*;

verus! {

// u8 into itself: the value is kept.
impl SaturatingElement<u8> for u8 {
    open spec fn saturated(self) -> u8 {
        saturate(self as int, IntKind::U8) as u8
    }

    #[inline]
    fn as_element(self) -> u8 {
        self
    }
}

// u8 into u16, u32, u64, u128, i16, i32, i64, i128: `Strategy::Lossless`, the
// target holds every source value.
impl SaturatingElement<u16> for u8 {
    open spec fn saturated(self) -> u16 {
        saturate(self as int, IntKind::U16) as u16
    }

    #[inline]
    fn as_element(self) -> u16 {
        self as u16
    }
}

impl SaturatingElement<u32> for u8 {
    open spec fn saturated(self) -> u32 {
        saturate(self as int, IntKind::U32) as u32
    }

    #[inline]
    fn as_element(self) -> u32 {
        self as u32
    }
}

impl SaturatingElement<u64> for u8 {
    open spec fn saturated(self) -> u64 {
        saturate(self as int, IntKind::U64) as u64
    }

    #[inline]
    fn as_element(self) -> u64 {
        self as u64
    }
}

impl SaturatingElement<u128> for u8 {
    open spec fn saturated(self) -> u128 {
        saturate(self as int, IntKind::U128) as u128
    }

    #[inline]
    fn as_element(self) -> u128 {
        self as u128
    }
}

impl SaturatingElement<i16> for u8 {
    open spec fn saturated(self) -> i16 {
        saturate(self as int, IntKind::I16) as i16
    }

    #[inline]
    fn as_element(self) -> i16 {
        self as i16
    }
}

impl SaturatingElement<i32> for u8 {
    open spec fn saturated(self) -> i32 {
        saturate(self as int, IntKind::I32) as i32
    }

    #[inline]
    fn as_element(self) -> i32 {
        self as i32
    }
}

impl SaturatingElement<i64> for u8 {
    open spec fn saturated(self) -> i64 {
        saturate(self as int, IntKind::I64) as i64
    }

    #[inline]
    fn as_element(self) -> i64 {
        self as i64
    }
}

impl SaturatingElement<i128> for u8 {
    open spec fn saturated(self) -> i128 {
        saturate(self as int, IntKind::I128) as i128
    }

    #[inline]
    fn as_element(self) -> i128 {
        self as i128
    }
}

// u8 into i8: `Strategy::ClampToMax`, the source is never negative.
impl SaturatingElement<i8> for u8 {
    open spec fn saturated(self) -> i8 {
        saturate(self as int, IntKind::I8) as i8
    }

    #[inline]
    fn as_element(self) -> i8 {
        self.min(i8::MAX as u8) as i8
    }
}

// u16 into itself: the value is kept.
impl SaturatingElement<u16> for u16 {
    open spec fn saturated(self) -> u16 {
        saturate(self as int, IntKind::U16) as u16
    }

    #[inline]
    fn as_element(self) -> u16 {
        self
    }
}

// u16 into u32, u64, u128, i32, i64, i128: `Strategy::Lossless`, the target
// holds every source value.
impl SaturatingElement<u32> for u16 {
    open spec fn saturated(self) -> u32 {
        saturate(self as int, IntKind::U32) as u32
    }

    #[inline]
    fn as_element(self) -> u32 {
        self as u32
    }
}

impl SaturatingElement<u64> for u16 {
    open spec fn saturated(self) -> u64 {
        saturate(self as int, IntKind::U64) as u64
    }

    #[inline]
    fn as_element(self) -> u64 {
        self as u64
    }
}

impl SaturatingElement<u128> for u16 {
    open spec fn saturated(self) -> u128 {
        saturate(self as int, IntKind::U128) as u128
    }

    #[inline]
    fn as_element(self) -> u128 {
        self as u128
    }
}

impl SaturatingElement<i32> for u16 {
    open spec fn saturated(self) -> i32 {
        saturate(self as int, IntKind::I32) as i32
    }

    #[inline]
    fn as_element(self) -> i32 {
        self as i32
    }
}

impl SaturatingElement<i64> for u16 {
    open spec fn saturated(self) -> i64 {
        saturate(self as int, IntKind::I64) as i64
    }

    #[inline]
    fn as_element(self) -> i64 {
        self as i64
    }
}

impl SaturatingElement<i128> for u16 {
    open spec fn saturated(self) -> i128 {
        saturate(self as int, IntKind::I128) as i128
    }

    #[inline]
    fn as_element(self) -> i128 {
        self as i128
    }
}

// u16 into u8, i8, i16: `Strategy::ClampToMax`, the source is never negative.
impl SaturatingElement<u8> for u16 {
    open spec fn saturated(self) -> u8 {
        saturate(self as int, IntKind::U8) as u8
    }

    #[inline]
    fn as_element(self) -> u8 {
        self.min(u8::MAX as u16) as u8
    }
}

impl SaturatingElement<i8> for u16 {
    open spec fn saturated(self) -> i8 {
        saturate(self as int, IntKind::I8) as i8
    }

    #[inline]
    fn as_element(self) -> i8 {
        self.min(i8::MAX as u16) as i8
    }
}

impl SaturatingElement<i16> for u16 {
    open spec fn saturated(self) -> i16 {
        saturate(self as int, IntKind::I16) as i16
    }

    #[inline]
    fn as_element(self) -> i16 {
        self.min(i16::MAX as u16) as i16
    }
}

// u32 into itself: the value is kept.
impl SaturatingElement<u32> for u32 {
    open spec fn saturated(self) -> u32 {
        saturate(self as int, IntKind::U32) as u32
    }

    #[inline]
    fn as_element(self) -> u32 {
        self
    }
}

// u32 into u64, u128, i64, i128: `Strategy::Lossless`, the target holds every
// source value.
impl SaturatingElement<u64> for u32 {
    open spec fn saturated(self) -> u64 {
        saturate(self as int, IntKind::U64) as u64
    }

    #[inline]
    fn as_element(self) -> u64 {
        self as u64
    }
}

impl SaturatingElement<u128> for u32 {
    open spec fn saturated(self) -> u128 {
        saturate(self as int, IntKind::U128) as u128
    }

    #[inline]
    fn as_element(self) -> u128 {
        self as u128
    }
}

impl SaturatingElement<i64> for u32 {
    open spec fn saturated(self) -> i64 {
        saturate(self as int, IntKind::I64) as i64
    }

    #[inline]
    fn as_element(self) -> i64 {
        self as i64
    }
}

impl SaturatingElement<i128> for u32 {
    open spec fn saturated(self) -> i128 {
        saturate(self as int, IntKind::I128) as i128
    }

    #[inline]
    fn as_element(self) -> i128 {
        self as i128
    }
}

// u32 into u8, u16, i8, i16, i32: `Strategy::ClampToMax`, the source is never
// negative.
impl SaturatingElement<u8> for u32 {
    open spec fn saturated(self) -> u8 {
        saturate(self as int, IntKind::U8) as u8
    }

    #[inline]
    fn as_element(self) -> u8 {
        self.min(u8::MAX as u32) as u8
    }
}

impl SaturatingElement<u16> for u32 {
    open spec fn saturated(self) -> u16 {
        saturate(self as int, IntKind::U16) as u16
    }

    #[inline]
    fn as_element(self) -> u16 {
        self.min(u16::MAX as u32) as u16
    }
}

impl SaturatingElement<i8> for u32 {
    open spec fn saturated(self) -> i8 {
        saturate(self as int, IntKind::I8) as i8
    }

    #[inline]
    fn as_element(self) -> i8 {
        self.min(i8::MAX as u32) as i8
    }
}

impl SaturatingElement<i16> for u32 {
    open spec fn saturated(self) -> i16 {
        saturate(self as int, IntKind::I16) as i16
    }

    #[inline]
    fn as_element(self) -> i16 {
        self.min(i16::MAX as u32) as i16
    }
}

impl SaturatingElement<i32> for u32 {
    open spec fn saturated(self) -> i32 {
        saturate(self as int, IntKind::I32) as i32
    }

    #[inline]
    fn as_element(self) -> i32 {
        self.min(i32::MAX as u32) as i32
    }
}

// u64 into itself: the value is kept.
impl SaturatingElement<u64> for u64 {
    open spec fn saturated(self) -> u64 {
        saturate(self as int, IntKind::U64) as u64
    }

    #[inline]
    fn as_element(self) -> u64 {
        self
    }
}

// u64 into u128, i128: `Strategy::Lossless`, the target holds every source
// value.
impl SaturatingElement<u128> for u64 {
    open spec fn saturated(self) -> u128 {
        saturate(self as int, IntKind::U128) as u128
    }

    #[inline]
    fn as_element(self) -> u128 {
        self as u128
    }
}

impl SaturatingElement<i128> for u64 {
    open spec fn saturated(self) -> i128 {
        saturate(self as int, IntKind::I128) as i128
    }

    #[inline]
    fn as_element(self) -> i128 {
        self as i128
    }
}

// u64 into u8, u16, u32, i8, i16, i32, i64: `Strategy::ClampToMax`, the source
// is never negative.
impl SaturatingElement<u8> for u64 {
    open spec fn saturated(self) -> u8 {
        saturate(self as int, IntKind::U8) as u8
    }

    #[inline]
    fn as_element(self) -> u8 {
        self.min(u8::MAX as u64) as u8
    }
}

impl SaturatingElement<u16> for u64 {
    open spec fn saturated(self) -> u16 {
        saturate(self as int, IntKind::U16) as u16
    }

    #[inline]
    fn as_element(self) -> u16 {
        self.min(u16::MAX as u64) as u16
    }
}

impl SaturatingElement<u32> for u64 {
    open spec fn saturated(self) -> u32 {
        saturate(self as int, IntKind::U32) as u32
    }

    #[inline]
    fn as_element(self) -> u32 {
        self.min(u32::MAX as u64) as u32
    }
}

impl SaturatingElement<i8> for u64 {
    open spec fn saturated(self) -> i8 {
        saturate(self as int, IntKind::I8) as i8
    }

    #[inline]
    fn as_element(self) -> i8 {
        self.min(i8::MAX as u64) as i8
    }
}

impl SaturatingElement<i16> for u64 {
    open spec fn saturated(self) -> i16 {
        saturate(self as int, IntKind::I16) as i16
    }

    #[inline]
    fn as_element(self) -> i16 {
        self.min(i16::MAX as u64) as i16
    }
}

impl SaturatingElement<i32> for u64 {
    open spec fn saturated(self) -> i32 {
        saturate(self as int, IntKind::I32) as i32
    }

    #[inline]
    fn as_element(self) -> i32 {
        self.min(i32::MAX as u64) as i32
    }
}

impl SaturatingElement<i64> for u64 {
    open spec fn saturated(self) -> i64 {
        saturate(self as int, IntKind::I64) as i64
    }

    #[inline]
    fn as_element(self) -> i64 {
        self.min(i64::MAX as u64) as i64
    }
}

// u128 into itself: the value is kept.
impl SaturatingElement<u128> for u128 {
    open spec fn saturated(self) -> u128 {
        saturate(self as int, IntKind::U128) as u128
    }

    #[inline]
    fn as_element(self) -> u128 {
        self
    }
}

// u128 into u8, u16, u32, u64, i8, i16, i32, i64, i128: `Strategy::ClampToMax`,
// the source is never negative.
impl SaturatingElement<u8> for u128 {
    open spec fn saturated(self) -> u8 {
        saturate(self as int, IntKind::U8) as u8
    }

    #[inline]
    fn as_element(self) -> u8 {
        self.min(u8::MAX as u128) as u8
    }
}

impl SaturatingElement<u16> for u128 {
    open spec fn saturated(self) -> u16 {
        saturate(self as int, IntKind::U16) as u16
    }

    #[inline]
    fn as_element(self) -> u16 {
        self.min(u16::MAX as u128) as u16
    }
}

impl SaturatingElement<u32> for u128 {
    open spec fn saturated(self) -> u32 {
        saturate(self as int, IntKind::U32) as u32
    }

    #[inline]
    fn as_element(self) -> u32 {
        self.min(u32::MAX as u128) as u32
    }
}

impl SaturatingElement<u64> for u128 {
    open spec fn saturated(self) -> u64 {
        saturate(self as int, IntKind::U64) as u64
    }

    #[inline]
    fn as_element(self) -> u64 {
        self.min(u64::MAX as u128) as u64
    }
}

impl SaturatingElement<i8> for u128 {
    open spec fn saturated(self) -> i8 {
        saturate(self as int, IntKind::I8) as i8
    }

    #[inline]
    fn as_element(self) -> i8 {
        self.min(i8::MAX as u128) as i8
    }
}

impl SaturatingElement<i16> for u128 {
    open spec fn saturated(self) -> i16 {
        saturate(self as int, IntKind::I16) as i16
    }

    #[inline]
    fn as_element(self) -> i16 {
        self.min(i16::MAX as u128) as i16
    }
}

impl SaturatingElement<i32> for u128 {
    open spec fn saturated(self) -> i32 {
        saturate(self as int, IntKind::I32) as i32
    }

    #[inline]
    fn as_element(self) -> i32 {
        self.min(i32::MAX as u128) as i32
    }
}

impl SaturatingElement<i64> for u128 {
    open spec fn saturated(self) -> i64 {
        saturate(self as int, IntKind::I64) as i64
    }

    #[inline]
    fn as_element(self) -> i64 {
        self.min(i64::MAX as u128) as i64
    }
}

impl SaturatingElement<i128> for u128 {
    open spec fn saturated(self) -> i128 {
        saturate(self as int, IntKind::I128) as i128
    }

    #[inline]
    fn as_element(self) -> i128 {
        self.min(i128::MAX as u128) as i128
    }
}

} // verus!
