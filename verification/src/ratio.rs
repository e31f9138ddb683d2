//! Parts-per-billion ratios and weights, with the arithmetic that
//! `sp_arithmetic` and `sp_weights` perform on them.

use vstd::prelude::*;

verus! {

/// One whole in parts per billion.
pub const PERBILL_ONE: u32 = 1_000_000_000;

/// The parts of a `Perbill` built from `parts`: `from_parts` saturates at one.
pub open spec fn perbill_clamp(parts: nat) -> nat {
    if parts <= PERBILL_ONE as nat { parts } else { PERBILL_ONE as nat }
}

/// `parts / 10^9` of `x`, rounded to the nearest integer, ties rounded down.
pub open spec fn perbill_apply(parts: nat, x: nat) -> nat {
    let prod = parts * x;
    prod / (PERBILL_ONE as nat) + if prod % (PERBILL_ONE as nat) > 500_000_000 {
        1nat
    } else {
        0nat
    }
}

/// The parts of `Perbill::from_percent(percent)`: the percentage saturates at 100.
pub open spec fn perbill_percent(percent: nat) -> nat {
    (if percent <= 100 { percent } else { 100 }) * 10_000_000
}

/// A weight of the runtime: reference time and proof size.
#[derive(Clone, Copy, Debug, PartialEq, Eq, Structural)]
pub struct Weight {
    pub ref_time: u64,
    pub proof_size: u64,
}

/// `Perbill::from_percent` of `sp_arithmetic`, read back by `Perbill::deconstruct`.
/// Claimed: the result has `min(percent, 100) * 10^7` parts, as its source computes.
#[verifier::external_body]
pub(crate) fn perbill_from_percent(percent: u32) -> (parts: u32)
    ensures
        parts == perbill_percent(percent as nat),
{
    sp_arithmetic::Perbill::from_percent(percent).deconstruct()
}

/// `Perbill * Weight` of `sp_weights`, on a ratio built by `Perbill::from_parts`.
/// Claimed: each component of the weight is multiplied by the ratio, rounded to
/// the nearest integer with ties rounded down (`Rounding::NearestPrefDown` in
/// `sp_arithmetic`), and `from_parts` saturates the ratio at one.
#[verifier::external_body]
pub(crate) fn perbill_mul_weight(parts: u32, w: Weight) -> (r: Weight)
    ensures
        r.ref_time == perbill_apply(perbill_clamp(parts as nat), w.ref_time as nat),
        r.proof_size == perbill_apply(perbill_clamp(parts as nat), w.proof_size as nat),
{
    let out = sp_arithmetic::Perbill::from_parts(parts) * sp_weights::Weight::from_parts(
        w.ref_time,
        w.proof_size,
    );
    Weight { ref_time: out.ref_time(), proof_size: out.proof_size() }
}

/// `Perbill * u64` of `sp_arithmetic`, on a ratio built by `Perbill::from_parts`.
/// Claimed: the product rounded to the nearest integer with ties rounded down,
/// with the ratio saturated at one.
#[verifier::external_body]
pub(crate) fn perbill_mul_u64(parts: u32, x: u64) -> (r: u64)
    ensures
        r == perbill_apply(perbill_clamp(parts as nat), x as nat),
{
    sp_arithmetic::Perbill::from_parts(parts) * x
}

/// `sp_weights::constants::WEIGHT_REF_TIME_PER_SECOND`.
/// Claimed: it is `10^12`, the value its source gives.
#[verifier::external_body]
pub(crate) fn weight_ref_time_per_second() -> (r: u64)
    ensures
        r == 1_000_000_000_000u64,
{
    sp_weights::constants::WEIGHT_REF_TIME_PER_SECOND
}

/// A ratio of at most one never yields more than what it is applied to.
pub proof fn lemma_perbill_apply_le(parts: nat, x: nat)
    requires
        parts <= PERBILL_ONE as nat,
    ensures
        perbill_apply(parts, x) <= x,
{
    let d = PERBILL_ONE as nat;
    let prod = parts * x;
    if parts == d {
        assert(prod == d * x) by (nonlinear_arith)
            requires prod == parts * x, parts == d;
        assert(prod / d == x && prod % d == 0) by (nonlinear_arith)
            requires prod == d * x, d == 1_000_000_000;
    } else {
        assert(prod / d + 1 <= x || x == 0) by (nonlinear_arith)
            requires prod == parts * x, parts < d, d == 1_000_000_000;
        if x == 0 {
            assert(prod == 0) by (nonlinear_arith)
                requires prod == parts * x, x == 0;
        }
    }
}

/// The whole ratio is the identity, and the zero ratio gives zero.
pub proof fn lemma_perbill_apply_bounds(x: nat)
    ensures
        perbill_apply(PERBILL_ONE as nat, x) == x,
        perbill_apply(0, x) == 0,
{
    let d = PERBILL_ONE as nat;
    assert((d * x) / d == x && (d * x) % d == 0) by (nonlinear_arith)
        requires d == 1_000_000_000;
    assert(0 * x == 0) by (nonlinear_arith);
}

} // verus!
