//! General properties of saturating casts, over every pair of kinds.
//!
//! Every conversion `S -> T` of this crate returns the value whose integer is
//! `saturate(v, T)` for the source value `v`, so these properties, stated over
//! [`saturate`], hold of each of them.
use crate::kind::{
    apply, in_range, lemma_kind_shape, lemma_resolved_range, max_of, min_of, resolved, saturate,
    strategy, IntKind,
};
use vstd::prelude::*;

verus! {

/// A cast from any kind into any kind lands within the target's range.
pub proof fn lemma_range_containment(s: IntKind, t: IntKind, v: int)
    requires
        in_range(v, s),
    ensures
        min_of(t) <= saturate(v, t) <= max_of(t),
{
    lemma_kind_shape(t);
}

/// A value that the target can hold is kept unchanged.
pub proof fn lemma_identity_on_overlap(s: IntKind, t: IntKind, v: int)
    requires
        in_range(v, s),
        in_range(v, t),
    ensures
        saturate(v, t) == v,
{
}

/// Casting a value of a kind into the same kind returns it unchanged.
pub proof fn lemma_self_cast(k: IntKind, v: int)
    requires
        in_range(v, k),
    ensures
        saturate(v, k) == v,
{
}

/// The source's minimum becomes itself if the target can hold it, else the
/// target's minimum; the source's maximum becomes itself if the target can
/// hold it, else the target's maximum.
pub proof fn lemma_boundary_pinning(s: IntKind, t: IntKind)
    ensures
        saturate(min_of(s), t) == (if min_of(s) >= min_of(t) { min_of(s) } else { min_of(t) }),
        saturate(max_of(s), t) == (if max_of(s) <= max_of(t) { max_of(s) } else { max_of(t) }),
{
    lemma_kind_shape(s);
    lemma_kind_shape(t);
}

/// A saturating cast into a fixed kind preserves the order of its sources.
pub proof fn lemma_monotonic(s: IntKind, t: IntKind, v1: int, v2: int)
    requires
        in_range(v1, s),
        in_range(v2, s),
        v1 <= v2,
    ensures
        saturate(v1, t) <= saturate(v2, t),
{
    lemma_kind_shape(t);
}

/// A cast into a pointer-width kind yields what a cast into the fixed-width
/// kind it resolves to yields, and the two hold the same source values.
pub proof fn lemma_pointer_width_resolution(k: IntKind, v: int)
    ensures
        saturate(v, k) == saturate(v, resolved(k)),
        in_range(v, k) <==> in_range(v, resolved(k)),
{
    lemma_resolved_range(k);
}

/// The strategy chosen for a pair is exact: for every value of the source
/// kind it yields the saturating cast into the target kind.
pub proof fn lemma_strategy_exact(s: IntKind, t: IntKind, v: int)
    requires
        in_range(v, s),
    ensures
        apply(strategy(s, t), v, t) == saturate(v, t),
{
    lemma_resolved_range(s);
    lemma_resolved_range(t);
    lemma_kind_shape(resolved(s));
    lemma_kind_shape(resolved(t));
}

} // verus!
