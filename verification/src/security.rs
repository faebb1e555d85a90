//! Pure bias functions that perturb the dispatch hash.
//!
//! All three are deterministic functions of their arguments alone and use
//! only wraparound arithmetic. They are routing salts, not security
//! mechanisms: they spread traffic with different policy inputs over
//! statistically different cells.

use vstd::prelude::*;

verus! {

/// Odd 64-bit multiplier used by the watermark finalizer.
pub const WATERMARK_MULTIPLIER: u64 = 0xff51afd7ed558ccd;

/// Fixed non-zero perturbation applied when the license is invalid.
pub const LICENSE_PERTURBATION: u64 = 0xA5A5_A5A5_A5A5_A5A5;

/// Step by which the abuse level scales its perturbation.
pub const ABUSE_STEP: u64 = 0x1111_1111_1111_1111;

/// The watermark mix: xor the identity key into the request id, then run a
/// xor-shift-multiply finalizer over the result.
pub open spec fn spec_watermark(id: u64, identity_key: u64) -> u64 {
    let folded = id ^ identity_key;
    let spread = folded ^ (folded >> 33);
    let scaled = spread.wrapping_mul(WATERMARK_MULTIPLIER);
    scaled ^ (scaled >> 33)
}

/// A license bias is zero exactly when the license is valid.
pub open spec fn spec_license_bias(valid: bool) -> u64 {
    if valid {
        0
    } else {
        LICENSE_PERTURBATION
    }
}

/// An abuse bias scales with the reported level, wrapping on overflow.
pub open spec fn spec_abuse_bias(level: u8) -> u64 {
    (level as u64).wrapping_mul(ABUSE_STEP)
}

/// Folds an externally supplied identity key into the dispatch hash, so the
/// routing depends on the opaque tenant identity and not just the request id.
pub fn watermark(id: u64, identity_key: u64) -> (mixed: u64)
    ensures
        mixed == spec_watermark(id, identity_key),
{
    let mut x = id ^ identity_key;
    x = x ^ (x >> 33);
    x = x.wrapping_mul(WATERMARK_MULTIPLIER);
    x = x ^ (x >> 33);
    x
}

/// Perturbs the dispatch hash only for unlicensed traffic.
pub fn license_bias(valid: bool) -> (bias: u64)
    ensures
        bias == spec_license_bias(valid),
{
    if valid {
        0
    } else {
        LICENSE_PERTURBATION
    }
}

/// Perturbs the dispatch hash in proportion to the reported abuse severity.
pub fn abuse_bias(level: u8) -> (bias: u64)
    ensures
        bias == spec_abuse_bias(level),
{
    (level as u64).wrapping_mul(ABUSE_STEP)
}

/// The bias functions are pure: equal inputs give equal outputs, on every
/// call.
pub proof fn lemma_bias_functions_deterministic(
    id1: u64,
    key1: u64,
    id2: u64,
    key2: u64,
    valid1: bool,
    valid2: bool,
    level1: u8,
    level2: u8,
)
    requires
        id1 == id2,
        key1 == key2,
        valid1 == valid2,
        level1 == level2,
    ensures
        spec_watermark(id1, key1) == spec_watermark(id2, key2),
        spec_license_bias(valid1) == spec_license_bias(valid2),
        spec_abuse_bias(level1) == spec_abuse_bias(level2),
{
}

/// A valid license adds no bias; an invalid one adds a fixed non-zero
/// perturbation.
pub proof fn lemma_license_bias_values()
    ensures
        spec_license_bias(true) == 0,
        spec_license_bias(false) == LICENSE_PERTURBATION,
        spec_license_bias(false) != 0,
{
}

/// Abuse level zero adds no bias.
pub proof fn lemma_abuse_bias_zero()
    ensures
        spec_abuse_bias(0) == 0,
{
}

/// Distinct abuse levels produce distinct biases: the step is odd, so
/// multiplication by it is injective modulo 2^64.
pub proof fn lemma_abuse_bias_injective(level1: u8, level2: u8)
    requires
        level1 != level2,
    ensures
        spec_abuse_bias(level1) != spec_abuse_bias(level2),
{
    let a: u64 = level1 as u64;
    let b: u64 = level2 as u64;
    assert((a * 0x1111_1111_1111_1111) % 0x1_0000_0000_0000_0000 != (b * 0x1111_1111_1111_1111)
        % 0x1_0000_0000_0000_0000) by (bit_vector)
        requires
            a < 256,
            b < 256,
            a != b,
    ;
}

/// Below the wraparound point the abuse bias grows strictly with the level.
pub proof fn lemma_abuse_bias_monotonic(level1: u8, level2: u8)
    requires
        level1 < level2,
        level2 <= 15,
    ensures
        spec_abuse_bias(level1) < spec_abuse_bias(level2),
{
    let a: u64 = level1 as u64;
    let b: u64 = level2 as u64;
    assert((a * 0x1111_1111_1111_1111) % 0x1_0000_0000_0000_0000 < (b * 0x1111_1111_1111_1111)
        % 0x1_0000_0000_0000_0000) by (bit_vector)
        requires
            a < b,
            b <= 15,
    ;
}

} // verus!
