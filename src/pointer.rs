//! Conversions to and from the pointer-width kinds.
//!
//! These kinds take their width from the platform, which makes them behave as
//! the fixed-width kind they resolve to (see `laws::lemma_pointer_width_resolution`).
//! No conversion here depends on which width that is: a value goes through the
//! 64-bit kind of the same signedness, which holds every pointer width, and is
//! then fitted into the pointer width by comparing with the platform's own
//! bounds. Where pointers are 64 bits wide the fitting step compares with a
//! constant, which the compiler folds away. Verus checks each of them for
//! 32-bit and for 64-bit pointers.
use crate::kind::{saturate, IntKind};
use crate::saturate::{SaturatingCast, SaturatingElement};
use vstd::prelude::*;

verus! {

// Into usize from u8 and u16, which every pointer width holds, and from i8 and
// i16, whose non-negative values every pointer width holds.
impl SaturatingElement<usize> for u8 {
    open spec fn saturated(self) -> usize {
        saturate(self as int, IntKind::Usize) as usize
    }

    #[inline]
    fn as_element(self) -> usize {
        self as usize
    }
}

impl SaturatingElement<usize> for u16 {
    open spec fn saturated(self) -> usize {
        saturate(self as int, IntKind::Usize) as usize
    }

    #[inline]
    fn as_element(self) -> usize {
        self as usize
    }
}

impl SaturatingElement<usize> for i8 {
    open spec fn saturated(self) -> usize {
        saturate(self as int, IntKind::Usize) as usize
    }

    #[inline]
    fn as_element(self) -> usize {
        self.max(0) as usize
    }
}

impl SaturatingElement<usize> for i16 {
    open spec fn saturated(self) -> usize {
        saturate(self as int, IntKind::Usize) as usize
    }

    #[inline]
    fn as_element(self) -> usize {
        self.max(0) as usize
    }
}

// Into usize from u64: clamp to the pointer-width maximum.
impl SaturatingElement<usize> for u64 {
    open spec fn saturated(self) -> usize {
        saturate(self as int, IntKind::Usize) as usize
    }

    #[inline]
    fn as_element(self) -> usize {
        self.min(usize::MAX as u64) as usize
    }
}

// Into usize from the other fixed-width kinds: saturate into u64 first,
// then into the pointer width.
impl SaturatingElement<usize> for u32 {
    open spec fn saturated(self) -> usize {
        saturate(self as int, IntKind::Usize) as usize
    }

    #[inline]
    fn as_element(self) -> usize {
        self.saturating_cast::<u64>().saturating_cast::<usize>()
    }
}

impl SaturatingElement<usize> for u128 {
    open spec fn saturated(self) -> usize {
        saturate(self as int, IntKind::Usize) as usize
    }

    #[inline]
    fn as_element(self) -> usize {
        self.saturating_cast::<u64>().saturating_cast::<usize>()
    }
}

impl SaturatingElement<usize> for i32 {
    open spec fn saturated(self) -> usize {
        saturate(self as int, IntKind::Usize) as usize
    }

    #[inline]
    fn as_element(self) -> usize {
        self.saturating_cast::<u64>().saturating_cast::<usize>()
    }
}

impl SaturatingElement<usize> for i64 {
    open spec fn saturated(self) -> usize {
        saturate(self as int, IntKind::Usize) as usize
    }

    #[inline]
    fn as_element(self) -> usize {
        self.saturating_cast::<u64>().saturating_cast::<usize>()
    }
}

impl SaturatingElement<usize> for i128 {
    open spec fn saturated(self) -> usize {
        saturate(self as int, IntKind::Usize) as usize
    }

    #[inline]
    fn as_element(self) -> usize {
        self.saturating_cast::<u64>().saturating_cast::<usize>()
    }
}

// Into isize from the kinds that every pointer width holds.
impl SaturatingElement<isize> for u8 {
    open spec fn saturated(self) -> isize {
        saturate(self as int, IntKind::Isize) as isize
    }

    #[inline]
    fn as_element(self) -> isize {
        self as isize
    }
}

impl SaturatingElement<isize> for i8 {
    open spec fn saturated(self) -> isize {
        saturate(self as int, IntKind::Isize) as isize
    }

    #[inline]
    fn as_element(self) -> isize {
        self as isize
    }
}

impl SaturatingElement<isize> for i16 {
    open spec fn saturated(self) -> isize {
        saturate(self as int, IntKind::Isize) as isize
    }

    #[inline]
    fn as_element(self) -> isize {
        self as isize
    }
}

// Into isize from i64: clamp to both pointer-width bounds.
impl SaturatingElement<isize> for i64 {
    open spec fn saturated(self) -> isize {
        saturate(self as int, IntKind::Isize) as isize
    }

    #[inline]
    fn as_element(self) -> isize {
        self.max(isize::MIN as i64).min(isize::MAX as i64) as isize
    }
}

// Into isize from the other fixed-width kinds: saturate into i64 first,
// then into the pointer width.
impl SaturatingElement<isize> for u16 {
    open spec fn saturated(self) -> isize {
        saturate(self as int, IntKind::Isize) as isize
    }

    #[inline]
    fn as_element(self) -> isize {
        self.saturating_cast::<i64>().saturating_cast::<isize>()
    }
}

impl SaturatingElement<isize> for u32 {
    open spec fn saturated(self) -> isize {
        saturate(self as int, IntKind::Isize) as isize
    }

    #[inline]
    fn as_element(self) -> isize {
        self.saturating_cast::<i64>().saturating_cast::<isize>()
    }
}

impl SaturatingElement<isize> for u64 {
    open spec fn saturated(self) -> isize {
        saturate(self as int, IntKind::Isize) as isize
    }

    #[inline]
    fn as_element(self) -> isize {
        self.saturating_cast::<i64>().saturating_cast::<isize>()
    }
}

impl SaturatingElement<isize> for u128 {
    open spec fn saturated(self) -> isize {
        saturate(self as int, IntKind::Isize) as isize
    }

    #[inline]
    fn as_element(self) -> isize {
        self.saturating_cast::<i64>().saturating_cast::<isize>()
    }
}

impl SaturatingElement<isize> for i32 {
    open spec fn saturated(self) -> isize {
        saturate(self as int, IntKind::Isize) as isize
    }

    #[inline]
    fn as_element(self) -> isize {
        self.saturating_cast::<i64>().saturating_cast::<isize>()
    }
}

impl SaturatingElement<isize> for i128 {
    open spec fn saturated(self) -> isize {
        saturate(self as int, IntKind::Isize) as isize
    }

    #[inline]
    fn as_element(self) -> isize {
        self.saturating_cast::<i64>().saturating_cast::<isize>()
    }
}

// From usize: every pointer width fits in u64, which is lossless; the rule
// from u64 then applies.
impl SaturatingElement<u8> for usize {
    open spec fn saturated(self) -> u8 {
        saturate(self as int, IntKind::U8) as u8
    }

    #[inline]
    fn as_element(self) -> u8 {
        (self as u64).saturating_cast::<u8>()
    }
}

impl SaturatingElement<u16> for usize {
    open spec fn saturated(self) -> u16 {
        saturate(self as int, IntKind::U16) as u16
    }

    #[inline]
    fn as_element(self) -> u16 {
        (self as u64).saturating_cast::<u16>()
    }
}

impl SaturatingElement<u32> for usize {
    open spec fn saturated(self) -> u32 {
        saturate(self as int, IntKind::U32) as u32
    }

    #[inline]
    fn as_element(self) -> u32 {
        (self as u64).saturating_cast::<u32>()
    }
}

impl SaturatingElement<u64> for usize {
    open spec fn saturated(self) -> u64 {
        saturate(self as int, IntKind::U64) as u64
    }

    #[inline]
    fn as_element(self) -> u64 {
        self as u64
    }
}

impl SaturatingElement<u128> for usize {
    open spec fn saturated(self) -> u128 {
        saturate(self as int, IntKind::U128) as u128
    }

    #[inline]
    fn as_element(self) -> u128 {
        self as u128
    }
}

impl SaturatingElement<usize> for usize {
    open spec fn saturated(self) -> usize {
        saturate(self as int, IntKind::Usize) as usize
    }

    #[inline]
    fn as_element(self) -> usize {
        self
    }
}

impl SaturatingElement<i8> for usize {
    open spec fn saturated(self) -> i8 {
        saturate(self as int, IntKind::I8) as i8
    }

    #[inline]
    fn as_element(self) -> i8 {
        (self as u64).saturating_cast::<i8>()
    }
}

impl SaturatingElement<i16> for usize {
    open spec fn saturated(self) -> i16 {
        saturate(self as int, IntKind::I16) as i16
    }

    #[inline]
    fn as_element(self) -> i16 {
        (self as u64).saturating_cast::<i16>()
    }
}

impl SaturatingElement<i32> for usize {
    open spec fn saturated(self) -> i32 {
        saturate(self as int, IntKind::I32) as i32
    }

    #[inline]
    fn as_element(self) -> i32 {
        (self as u64).saturating_cast::<i32>()
    }
}

impl SaturatingElement<i64> for usize {
    open spec fn saturated(self) -> i64 {
        saturate(self as int, IntKind::I64) as i64
    }

    #[inline]
    fn as_element(self) -> i64 {
        (self as u64).saturating_cast::<i64>()
    }
}

impl SaturatingElement<i128> for usize {
    open spec fn saturated(self) -> i128 {
        saturate(self as int, IntKind::I128) as i128
    }

    #[inline]
    fn as_element(self) -> i128 {
        (self as u64).saturating_cast::<i128>()
    }
}

impl SaturatingElement<isize> for usize {
    open spec fn saturated(self) -> isize {
        saturate(self as int, IntKind::Isize) as isize
    }

    #[inline]
    fn as_element(self) -> isize {
        (self as u64).saturating_cast::<isize>()
    }
}

// From isize: every pointer width fits in i64, which is lossless; the rule
// from i64 then applies.
impl SaturatingElement<u8> for isize {
    open spec fn saturated(self) -> u8 {
        saturate(self as int, IntKind::U8) as u8
    }

    #[inline]
    fn as_element(self) -> u8 {
        (self as i64).saturating_cast::<u8>()
    }
}

impl SaturatingElement<u16> for isize {
    open spec fn saturated(self) -> u16 {
        saturate(self as int, IntKind::U16) as u16
    }

    #[inline]
    fn as_element(self) -> u16 {
        (self as i64).saturating_cast::<u16>()
    }
}

impl SaturatingElement<u32> for isize {
    open spec fn saturated(self) -> u32 {
        saturate(self as int, IntKind::U32) as u32
    }

    #[inline]
    fn as_element(self) -> u32 {
        (self as i64).saturating_cast::<u32>()
    }
}

impl SaturatingElement<u64> for isize {
    open spec fn saturated(self) -> u64 {
        saturate(self as int, IntKind::U64) as u64
    }

    #[inline]
    fn as_element(self) -> u64 {
        (self as i64).saturating_cast::<u64>()
    }
}

impl SaturatingElement<u128> for isize {
    open spec fn saturated(self) -> u128 {
        saturate(self as int, IntKind::U128) as u128
    }

    #[inline]
    fn as_element(self) -> u128 {
        (self as i64).saturating_cast::<u128>()
    }
}

impl SaturatingElement<usize> for isize {
    open spec fn saturated(self) -> usize {
        saturate(self as int, IntKind::Usize) as usize
    }

    #[inline]
    fn as_element(self) -> usize {
        (self as i64).saturating_cast::<usize>()
    }
}

impl SaturatingElement<i8> for isize {
    open spec fn saturated(self) -> i8 {
        saturate(self as int, IntKind::I8) as i8
    }

    #[inline]
    fn as_element(self) -> i8 {
        (self as i64).saturating_cast::<i8>()
    }
}

impl SaturatingElement<i16> for isize {
    open spec fn saturated(self) -> i16 {
        saturate(self as int, IntKind::I16) as i16
    }

    #[inline]
    fn as_element(self) -> i16 {
        (self as i64).saturating_cast::<i16>()
    }
}

impl SaturatingElement<i32> for isize {
    open spec fn saturated(self) -> i32 {
        saturate(self as int, IntKind::I32) as i32
    }

    #[inline]
    fn as_element(self) -> i32 {
        (self as i64).saturating_cast::<i32>()
    }
}

impl SaturatingElement<i64> for isize {
    open spec fn saturated(self) -> i64 {
        saturate(self as int, IntKind::I64) as i64
    }

    #[inline]
    fn as_element(self) -> i64 {
        self as i64
    }
}

impl SaturatingElement<i128> for isize {
    open spec fn saturated(self) -> i128 {
        saturate(self as int, IntKind::I128) as i128
    }

    #[inline]
    fn as_element(self) -> i128 {
        self as i128
    }
}

impl SaturatingElement<isize> for isize {
    open spec fn saturated(self) -> isize {
        saturate(self as int, IntKind::Isize) as isize
    }

    #[inline]
    fn as_element(self) -> isize {
        self
    }
}

} // verus!
