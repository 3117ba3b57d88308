//! The mathematical model of the built-in integer kinds, their ranges, and the
//! clamping strategies that the conversion matrix chooses between.
use vstd::prelude::*;

verus! {

/// The twelve built-in integer kinds: a signedness and a bit width, where the
/// two pointer-width kinds take the width of the platform's addresses.
pub enum IntKind {
    U8,
    U16,
    U32,
    U64,
    U128,
    Usize,
    I8,
    I16,
    I32,
    I64,
    I128,
    Isize,
}

/// The least integer a value of kind `k` can hold.
pub open spec fn min_of(k: IntKind) -> int {
    match k {
        IntKind::U8 => u8::MIN as int,
        IntKind::U16 => u16::MIN as int,
        IntKind::U32 => u32::MIN as int,
        IntKind::U64 => u64::MIN as int,
        IntKind::U128 => u128::MIN as int,
        IntKind::Usize => usize::MIN as int,
        IntKind::I8 => i8::MIN as int,
        IntKind::I16 => i16::MIN as int,
        IntKind::I32 => i32::MIN as int,
        IntKind::I64 => i64::MIN as int,
        IntKind::I128 => i128::MIN as int,
        IntKind::Isize => isize::MIN as int,
    }
}

/// The greatest integer a value of kind `k` can hold.
pub open spec fn max_of(k: IntKind) -> int {
    match k {
        IntKind::U8 => u8::MAX as int,
        IntKind::U16 => u16::MAX as int,
        IntKind::U32 => u32::MAX as int,
        IntKind::U64 => u64::MAX as int,
        IntKind::U128 => u128::MAX as int,
        IntKind::Usize => usize::MAX as int,
        IntKind::I8 => i8::MAX as int,
        IntKind::I16 => i16::MAX as int,
        IntKind::I32 => i32::MAX as int,
        IntKind::I64 => i64::MAX as int,
        IntKind::I128 => i128::MAX as int,
        IntKind::Isize => isize::MAX as int,
    }
}

/// Whether kind `k` can represent the integer `v`.
pub open spec fn in_range(v: int, k: IntKind) -> bool {
    min_of(k) <= v <= max_of(k)
}

/// `v` restricted to the closed interval `[lo, hi]`.
pub open spec fn clamp(v: int, lo: int, hi: int) -> int {
    if v < lo {
        lo
    } else if v > hi {
        hi
    } else {
        v
    }
}

/// The integer that a saturating cast of `v` into kind `k` yields: `v` when
/// `k` can hold it, otherwise the bound of `k` nearest to `v`.
pub open spec fn saturate(v: int, k: IntKind) -> int {
    clamp(v, min_of(k), max_of(k))
}

/// The fixed-width kind that a kind stands for on this platform: a
/// pointer-width kind resolves to the fixed-width kind of the same width and
/// signedness, every other kind to itself.
pub open spec fn resolved(k: IntKind) -> IntKind {
    match k {
        IntKind::Usize => if usize::BITS == 32 { IntKind::U32 } else { IntKind::U64 },
        IntKind::Isize => if isize::BITS == 32 { IntKind::I32 } else { IntKind::I64 },
        _ => k,
    }
}

/// The clamping algorithms a conversion can use, from the cheapest to the
/// most general.
pub enum Strategy {
    /// The target holds every source value: the value is kept.
    Lossless,
    /// The source is never negative: only the target's maximum can be crossed.
    ClampToMax,
    /// The target holds every non-negative source value: only negatives are
    /// raised, to zero.
    ClampToZero,
    /// Both bounds of the target can be crossed.
    ClampBoth,
}

/// The strategy chosen for a conversion from kind `s` to kind `t`, decided by
/// comparing the two ranges as mathematical integers. A conversion to or from
/// a pointer-width kind takes the strategy of the fixed-width kind it resolves
/// to.
pub open spec fn strategy(s: IntKind, t: IntKind) -> Strategy {
    let (s, t) = (resolved(s), resolved(t));
    if min_of(t) <= min_of(s) && max_of(s) <= max_of(t) {
        Strategy::Lossless
    } else if min_of(s) == 0 {
        Strategy::ClampToMax
    } else if max_of(s) <= max_of(t) {
        Strategy::ClampToZero
    } else {
        Strategy::ClampBoth
    }
}

/// The integer that strategy `st` yields for `v` with target kind `t`.
pub open spec fn apply(st: Strategy, v: int, t: IntKind) -> int {
    match st {
        Strategy::Lossless => v,
        Strategy::ClampToMax => if v > max_of(t) { max_of(t) } else { v },
        Strategy::ClampToZero => if v < 0 { 0 } else { v },
        Strategy::ClampBoth => {
            let below_max = if v > max_of(t) { max_of(t) } else { v };
            if below_max < min_of(t) { min_of(t) } else { below_max }
        },
    }
}

/// Every kind is either unsigned, from zero up, or signed, with one more
/// negative value than positive ones.
pub proof fn lemma_kind_shape(k: IntKind)
    ensures
        max_of(k) > 0,
        min_of(k) == 0 || min_of(k) == -(max_of(k) + 1),
{
}

/// A pointer-width kind has exactly the range of the kind it resolves to.
pub proof fn lemma_resolved_range(k: IntKind)
    ensures
        min_of(resolved(k)) == min_of(k),
        max_of(resolved(k)) == max_of(k),
{
}

/// The strategy that each conversion between two distinct fixed-width kinds
/// uses, as the selection rule gives it.
pub proof fn lemma_fixed_width_strategies()
    ensures
        strategy(IntKind::U8, IntKind::U16) == Strategy::Lossless,
        strategy(IntKind::U8, IntKind::U32) == Strategy::Lossless,
        strategy(IntKind::U8, IntKind::U64) == Strategy::Lossless,
        strategy(IntKind::U8, IntKind::U128) == Strategy::Lossless,
        strategy(IntKind::U8, IntKind::I8) == Strategy::ClampToMax,
        strategy(IntKind::U8, IntKind::I16) == Strategy::Lossless,
        strategy(IntKind::U8, IntKind::I32) == Strategy::Lossless,
        strategy(IntKind::U8, IntKind::I64) == Strategy::Lossless,
        strategy(IntKind::U8, IntKind::I128) == Strategy::Lossless,
        strategy(IntKind::U16, IntKind::U8) == Strategy::ClampToMax,
        strategy(IntKind::U16, IntKind::U32) == Strategy::Lossless,
        strategy(IntKind::U16, IntKind::U64) == Strategy::Lossless,
        strategy(IntKind::U16, IntKind::U128) == Strategy::Lossless,
        strategy(IntKind::U16, IntKind::I8) == Strategy::ClampToMax,
        strategy(IntKind::U16, IntKind::I16) == Strategy::ClampToMax,
        strategy(IntKind::U16, IntKind::I32) == Strategy::Lossless,
        strategy(IntKind::U16, IntKind::I64) == Strategy::Lossless,
        strategy(IntKind::U16, IntKind::I128) == Strategy::Lossless,
        strategy(IntKind::U32, IntKind::U8) == Strategy::ClampToMax,
        strategy(IntKind::U32, IntKind::U16) == Strategy::ClampToMax,
        strategy(IntKind::U32, IntKind::U64) == Strategy::Lossless,
        strategy(IntKind::U32, IntKind::U128) == Strategy::Lossless,
        strategy(IntKind::U32, IntKind::I8) == Strategy::ClampToMax,
        strategy(IntKind::U32, IntKind::I16) == Strategy::ClampToMax,
        strategy(IntKind::U32, IntKind::I32) == Strategy::ClampToMax,
        strategy(IntKind::U32, IntKind::I64) == Strategy::Lossless,
        strategy(IntKind::U32, IntKind::I128) == Strategy::Lossless,
        strategy(IntKind::U64, IntKind::U8) == Strategy::ClampToMax,
        strategy(IntKind::U64, IntKind::U16) == Strategy::ClampToMax,
        strategy(IntKind::U64, IntKind::U32) == Strategy::ClampToMax,
        strategy(IntKind::U64, IntKind::U128) == Strategy::Lossless,
        strategy(IntKind::U64, IntKind::I8) == Strategy::ClampToMax,
        strategy(IntKind::U64, IntKind::I16) == Strategy::ClampToMax,
        strategy(IntKind::U64, IntKind::I32) == Strategy::ClampToMax,
        strategy(IntKind::U64, IntKind::I64) == Strategy::ClampToMax,
        strategy(IntKind::U64, IntKind::I128) == Strategy::Lossless,
        strategy(IntKind::U128, IntKind::U8) == Strategy::ClampToMax,
        strategy(IntKind::U128, IntKind::U16) == Strategy::ClampToMax,
        strategy(IntKind::U128, IntKind::U32) == Strategy::ClampToMax,
        strategy(IntKind::U128, IntKind::U64) == Strategy::ClampToMax,
        strategy(IntKind::U128, IntKind::I8) == Strategy::ClampToMax,
        strategy(IntKind::U128, IntKind::I16) == Strategy::ClampToMax,
        strategy(IntKind::U128, IntKind::I32) == Strategy::ClampToMax,
        strategy(IntKind::U128, IntKind::I64) == Strategy::ClampToMax,
        strategy(IntKind::U128, IntKind::I128) == Strategy::ClampToMax,
        strategy(IntKind::I8, IntKind::U8) == Strategy::ClampToZero,
        strategy(IntKind::I8, IntKind::U16) == Strategy::ClampToZero,
        strategy(IntKind::I8, IntKind::U32) == Strategy::ClampToZero,
        strategy(IntKind::I8, IntKind::U64) == Strategy::ClampToZero,
        strategy(IntKind::I8, IntKind::U128) == Strategy::ClampToZero,
        strategy(IntKind::I8, IntKind::I16) == Strategy::Lossless,
        strategy(IntKind::I8, IntKind::I32) == Strategy::Lossless,
        strategy(IntKind::I8, IntKind::I64) == Strategy::Lossless,
        strategy(IntKind::I8, IntKind::I128) == Strategy::Lossless,
        strategy(IntKind::I16, IntKind::U8) == Strategy::ClampBoth,
        strategy(IntKind::I16, IntKind::U16) == Strategy::ClampToZero,
        strategy(IntKind::I16, IntKind::U32) == Strategy::ClampToZero,
        strategy(IntKind::I16, IntKind::U64) == Strategy::ClampToZero,
        strategy(IntKind::I16, IntKind::U128) == Strategy::ClampToZero,
        strategy(IntKind::I16, IntKind::I8) == Strategy::ClampBoth,
        strategy(IntKind::I16, IntKind::I32) == Strategy::Lossless,
        strategy(IntKind::I16, IntKind::I64) == Strategy::Lossless,
        strategy(IntKind::I16, IntKind::I128) == Strategy::Lossless,
        strategy(IntKind::I32, IntKind::U8) == Strategy::ClampBoth,
        strategy(IntKind::I32, IntKind::U16) == Strategy::ClampBoth,
        strategy(IntKind::I32, IntKind::U32) == Strategy::ClampToZero,
        strategy(IntKind::I32, IntKind::U64) == Strategy::ClampToZero,
        strategy(IntKind::I32, IntKind::U128) == Strategy::ClampToZero,
        strategy(IntKind::I32, IntKind::I8) == Strategy::ClampBoth,
        strategy(IntKind::I32, IntKind::I16) == Strategy::ClampBoth,
        strategy(IntKind::I32, IntKind::I64) == Strategy::Lossless,
        strategy(IntKind::I32, IntKind::I128) == Strategy::Lossless,
        strategy(IntKind::I64, IntKind::U8) == Strategy::ClampBoth,
        strategy(IntKind::I64, IntKind::U16) == Strategy::ClampBoth,
        strategy(IntKind::I64, IntKind::U32) == Strategy::ClampBoth,
        strategy(IntKind::I64, IntKind::U64) == Strategy::ClampToZero,
        strategy(IntKind::I64, IntKind::U128) == Strategy::ClampToZero,
        strategy(IntKind::I64, IntKind::I8) == Strategy::ClampBoth,
        strategy(IntKind::I64, IntKind::I16) == Strategy::ClampBoth,
        strategy(IntKind::I64, IntKind::I32) == Strategy::ClampBoth,
        strategy(IntKind::I64, IntKind::I128) == Strategy::Lossless,
        strategy(IntKind::I128, IntKind::U8) == Strategy::ClampBoth,
        strategy(IntKind::I128, IntKind::U16) == Strategy::ClampBoth,
        strategy(IntKind::I128, IntKind::U32) == Strategy::ClampBoth,
        strategy(IntKind::I128, IntKind::U64) == Strategy::ClampBoth,
        strategy(IntKind::I128, IntKind::U128) == Strategy::ClampToZero,
        strategy(IntKind::I128, IntKind::I8) == Strategy::ClampBoth,
        strategy(IntKind::I128, IntKind::I16) == Strategy::ClampBoth,
        strategy(IntKind::I128, IntKind::I32) == Strategy::ClampBoth,
        strategy(IntKind::I128, IntKind::I64) == Strategy::ClampBoth,
{
}

} // verus!
