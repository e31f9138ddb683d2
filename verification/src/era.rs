//! Transaction eras: how long a signed transaction stays valid.

use vstd::prelude::*;
use vstd::arithmetic::power2::{lemma2_to64, lemma_pow2_unfold, pow2};

verus! {

/// The smallest power of two that is at least `n` (one for zero).
pub open spec fn least_pow2_geq(n: nat) -> nat
    decreases n,
{
    if n <= 1 {
        1
    } else {
        2 * least_pow2_geq(((n + 1) / 2) as nat)
    }
}

/// `least_pow2_geq(n)` is a power of two, at least `n`, and its half is below `n`.
pub proof fn lemma_least_pow2_geq(n: nat)
    ensures
        exists|k: nat| #[trigger] pow2(k) == least_pow2_geq(n),
        least_pow2_geq(n) >= n,
        least_pow2_geq(n) >= 1,
        n >= 1 ==> least_pow2_geq(n) < 2 * n,
    decreases n,
{
    lemma2_to64();
    if n <= 1 {
        assert(pow2(0) == 1);
    } else {
        let m = ((n + 1) / 2) as nat;
        lemma_least_pow2_geq(m);
        let k = choose|k: nat| #[trigger] pow2(k) == least_pow2_geq(m);
        lemma_pow2_unfold(k + 1);
        assert(pow2(k + 1) == 2 * pow2(k));
        assert(pow2(k + 1) == least_pow2_geq(n));
    }
}

/// The longevity of a transaction: forever, or `period` blocks from a block
/// whose number is `phase` modulo `period`.
#[derive(Clone, Copy, Debug, PartialEq, Eq, Structural)]
pub enum Era {
    Immortal,
    Mortal { period: u64, phase: u64 },
}

/// The period that `Era::mortal` makes of a requested `period`: rounded up to a
/// power of two (65536 where that overflows), then clamped to `[4, 65536]`.
pub open spec fn mortal_period(period: nat) -> nat {
    let p = if least_pow2_geq(period) <= u64::MAX as nat {
        least_pow2_geq(period)
    } else {
        65536
    };
    if p < 4 {
        4
    } else if p > 65536 {
        65536
    } else {
        p
    }
}

/// The granularity of phases for a period: `max(period >> 12, 1)`.
pub open spec fn phase_quantum(period: nat) -> nat {
    if period / 4096 >= 1 {
        period / 4096
    } else {
        1
    }
}

/// The phase that `Era::mortal` makes for the block `current`: its position in
/// the period, rounded down to a multiple of the phase granularity.
pub open spec fn mortal_phase(period: nat, current: nat) -> nat {
    let p = mortal_period(period);
    let q = phase_quantum(p);
    (current % p) / q * q
}

/// `u32::checked_next_power_of_two` of std.
/// Claimed, as its documentation says: the smallest power of two greater than or
/// equal to `x`, or `None` where that exceeds `u32::MAX`.
#[verifier::external_body]
pub(crate) fn u32_checked_next_power_of_two(x: u32) -> (r: Option<u32>)
    ensures
        r == (if least_pow2_geq(x as nat) <= u32::MAX as nat {
            Some(least_pow2_geq(x as nat) as u32)
        } else {
            None::<u32>
        }),
{
    x.checked_next_power_of_two()
}

/// `sp_runtime::generic::Era::mortal`.
/// Claimed, as its source computes: a mortal era whose period is `period` rounded
/// up to a power of two (65536 where that overflows) and clamped to `[4, 65536]`,
/// and whose phase is `current` modulo that period, rounded down to a multiple of
/// `max(period >> 12, 1)`.
#[verifier::external_body]
pub(crate) fn era_mortal(period: u64, current: u64) -> (e: Era)
    ensures
        e == (Era::Mortal {
            period: mortal_period(period as nat) as u64,
            phase: mortal_phase(period as nat, current as nat) as u64,
        }),
{
    match sp_runtime::generic::Era::mortal(period, current) {
        sp_runtime::generic::Era::Immortal => Era::Immortal,
        sp_runtime::generic::Era::Mortal(period, phase) => Era::Mortal { period, phase },
    }
}

/// The era period used for benchmark transactions, from the number of kept block hashes.
pub open spec fn benchmark_era_period_spec(block_hash_count: nat) -> nat {
    if least_pow2_geq(block_hash_count) <= u32::MAX as nat {
        least_pow2_geq(block_hash_count) / 2
    } else {
        2
    }
}

/// Half the smallest power of two that is at least `block_hash_count`, or 2 where
/// that power does not fit in a `u32`.
pub fn benchmark_era_period(block_hash_count: u32) -> (p: u64)
    ensures
        p == benchmark_era_period_spec(block_hash_count as nat),
        p <= block_hash_count || block_hash_count <= 1 || p == 2,
{
    proof {
        lemma_least_pow2_geq(block_hash_count as nat);
    }
    match u32_checked_next_power_of_two(block_hash_count) {
        Some(c) => (c / 2) as u64,
        None => 2,
    }
}

/// A mortal era has a power-of-two period in `[4, 65536]`, and its phase lies
/// within the period and is a multiple of the phase granularity.
pub proof fn lemma_mortal_era_well_formed(period: nat, current: nat)
    ensures
        4 <= mortal_period(period) <= 65536,
        exists|k: nat| #[trigger] pow2(k) == mortal_period(period),
        mortal_phase(period, current) < mortal_period(period),
        mortal_phase(period, current) % phase_quantum(mortal_period(period)) == 0,
{
    lemma2_to64();
    lemma_least_pow2_geq(period);
    let lp = least_pow2_geq(period);
    let p = mortal_period(period);
    if lp > u64::MAX as nat || lp > 65536 {
        assert(pow2(16) == 65536);
    } else if lp < 4 {
        assert(pow2(2) == 4);
    }
    let q = phase_quantum(p);
    let r = current % p;
    assert(r < p) by (nonlinear_arith)
        requires p >= 4, r == current % p;
    assert(r / q * q <= r) by (nonlinear_arith)
        requires q >= 1;
    assert((r / q * q) % q == 0) by (nonlinear_arith)
        requires q >= 1;
}

} // verus!
