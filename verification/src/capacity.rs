//! Shard capacity arithmetic.
//!
//! A shard is created from a requested logical cell count. The request is
//! clamped to a fixed safety ceiling (so the table's memory stays bounded)
//! and then rounded up to the next power of two, so cell indices can be
//! reduced with a bitmask instead of a modulo.

use vstd::prelude::*;

verus! {

/// Upper bound on the number of cells a single shard may allocate. A power
/// of two, so rounding a clamped request up never exceeds it.
pub const SHARD_CELL_CEILING: usize = 131_072;

/// Whether `n` is a power of two.
pub open spec fn is_pow2(n: int) -> bool
    decreases n,
{
    if n <= 0 {
        false
    } else if n == 1 {
        true
    } else {
        n % 2 == 0 && is_pow2(n / 2)
    }
}

/// The requested cell count, clamped to the safety ceiling.
pub open spec fn spec_clamped(requested: int) -> int {
    if requested < SHARD_CELL_CEILING {
        requested
    } else {
        SHARD_CELL_CEILING as int
    }
}

/// What a shard realizes out of a requested capacity: the clamped request,
/// rounded up to the next power of two. The clauses pin `cap` down: there is
/// exactly one power of two in the half-open interval they describe.
pub open spec fn capacity_realized(requested: int, cap: int) -> bool {
    &&& is_pow2(cap)
    &&& cap <= SHARD_CELL_CEILING
    &&& spec_clamped(requested) <= cap
    &&& (cap == 1 || cap < 2 * spec_clamped(requested))
}

/// The safety ceiling is itself a power of two.
pub proof fn lemma_ceiling_is_pow2()
    ensures
        is_pow2(SHARD_CELL_CEILING as int),
{
    reveal_with_fuel(is_pow2, 20);
}

/// Doubling a power of two that lies strictly below another power of two
/// stays within the larger one.
pub proof fn lemma_pow2_double_le(a: int, b: int)
    requires
        is_pow2(a),
        is_pow2(b),
        a < b,
    ensures
        2 * a <= b,
    decreases b,
{
    if a > 1 {
        lemma_pow2_double_le(a / 2, b / 2);
    }
}

/// The realized capacity is a function of the request: the clauses of
/// `capacity_realized` allow a single value.
pub proof fn lemma_capacity_realized_unique(requested: int, cap1: int, cap2: int)
    requires
        capacity_realized(requested, cap1),
        capacity_realized(requested, cap2),
    ensures
        cap1 == cap2,
{
    if cap1 < cap2 {
        lemma_pow2_double_le(cap1, cap2);
    } else if cap2 < cap1 {
        lemma_pow2_double_le(cap2, cap1);
    }
}

/// Clamps the request to the ceiling and rounds up to the next power of two.
pub fn realize_capacity(requested: usize) -> (cap: usize)
    ensures
        capacity_realized(requested as int, cap as int),
        1 <= cap <= SHARD_CELL_CEILING,
{
    let clamped: usize = if requested < SHARD_CELL_CEILING {
        requested
    } else {
        SHARD_CELL_CEILING
    };
    let mut cap: usize = 1;
    while cap < clamped
        invariant
            1 <= cap <= SHARD_CELL_CEILING,
            is_pow2(cap as int),
            clamped == spec_clamped(requested as int),
            cap == 1 || cap < 2 * clamped,
        decreases SHARD_CELL_CEILING - cap,
    {
        proof {
            lemma_ceiling_is_pow2();
            lemma_pow2_double_le(cap as int, SHARD_CELL_CEILING as int);
        }
        cap = cap * 2;
    }
    cap
}

} // verus!
