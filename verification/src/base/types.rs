//! The scalar types of the engine and the bounds that relate them.

use vstd::prelude::*;

verus! {

/// Position scalar, used for block coordinates.
pub type PosScalar = i32;

/// Extent scalar, used for sizes and counts.
pub type SizeScalar = u32;

/// The largest magnitude that a [`PosScalar`] can take.
pub const POS_ABS_MAX: usize = 2147483648;

/// The larger of two integers, as a mathematical function.
pub open spec fn max_of(a: int, b: int) -> int {
    if a < b {
        b
    } else {
        a
    }
}

/// The magnitude of an integer.
pub open spec fn magnitude(a: int) -> int {
    if a < 0 {
        -a
    } else {
        a
    }
}

/// Returns the larger of `a` and `b`.
pub fn i64max(a: i64, b: i64) -> (m: i64)
    ensures
        m == max_of(a as int, b as int),
{
    if a < b {
        b
    } else {
        a
    }
}

/// [`POS_ABS_MAX`] is the magnitude of the most extreme [`PosScalar`], and
/// every such magnitude fits in a [`SizeScalar`].
pub proof fn lemma_size_scalar_holds_every_magnitude(p: PosScalar)
    ensures
        POS_ABS_MAX == max_of(magnitude(PosScalar::MAX as int), magnitude(PosScalar::MIN as int)),
        magnitude(p as int) <= POS_ABS_MAX,
        POS_ABS_MAX <= SizeScalar::MAX,
{
}

} // verus!
