//! The parameters of the development runtime: version, time units, currency
//! units, storage deposits, block weight and length limits and pallet limits.

use vstd::prelude::*;

use crate::ratio::{
    lemma_perbill_apply_le, perbill_apply, perbill_clamp, perbill_from_percent,
    perbill_mul_u64, perbill_mul_weight, perbill_percent, weight_ref_time_per_second, Weight,
    PERBILL_ONE,
};

verus! {

/// Block height.
pub type BlockNumber = u32;

/// Amount of tokens.
pub type Balance = u128;

/// Index of a transaction of an account.
pub type Nonce = u32;

/// Average expected block time in milliseconds.
pub const MILLISECS_PER_BLOCK: u64 = 6000;

/// Minimum duration between blocks; the slot length of Aura.
pub const SLOT_DURATION: u64 = MILLISECS_PER_BLOCK;

/// Blocks per minute.
pub const MINUTES: BlockNumber = 60_000 / (MILLISECS_PER_BLOCK as BlockNumber);

/// Blocks per hour.
pub const HOURS: BlockNumber = MINUTES * 60;

/// Blocks per day.
pub const DAYS: BlockNumber = HOURS * 24;

/// 10^9 base units.
pub const MICROLOST: Balance = 1_000_000_000;

/// 10^12 base units.
pub const MILILOST: Balance = 1_000 * MICROLOST;

/// 10^15 base units: one token.
pub const LOST: Balance = 1_000 * MILILOST;

/// The minimum balance that keeps an account alive.
pub const EXISTENTIAL_DEPOSIT: u128 = 500;

/// Number of recent block hashes kept by the system pallet.
pub const BLOCK_HASH_COUNT: BlockNumber = 2400;

/// Address prefix of the chain (generic Substrate prefix).
pub const SS58_PREFIX: u8 = 42;

/// Percentage of the block weight available to normal extrinsics.
pub const NORMAL_DISPATCH_PERCENT: u32 = 75;

/// Percentage of the block weight used on average by block initialization.
pub const AVERAGE_ON_INITIALIZE_PERCENT: u32 = 10;

/// Maximum block length in bytes (5 MiB).
pub const MAX_BLOCK_LENGTH: u32 = 5 * 1024 * 1024;

/// Maximum number of balance locks of an account.
pub const MAX_LOCKS: u32 = 50;

/// Maximum number of consumer references of an account.
pub const MAX_CONSUMERS: u32 = 16;

/// Maximum number of Aura and GRANDPA authorities.
pub const MAX_AUTHORITIES: u32 = 32;

/// Maximum number of GRANDPA nominators.
pub const MAX_NOMINATORS: u32 = 0;

/// Maximum number of session entries kept per GRANDPA set id.
pub const MAX_SET_ID_SESSION_ENTRIES: u64 = 0;

/// Fee multiplier of operational transactions.
pub const OPERATIONAL_FEE_MULTIPLIER: u8 = 5;

/// Maximum size of contract code in bytes.
pub const MAX_CODE_LEN: u32 = 123 * 1024;

/// Maximum length of a contract storage key.
pub const MAX_STORAGE_KEY_LEN: u32 = 128;

/// Maximum length of the contract debug buffer.
pub const MAX_DEBUG_BUFFER_LEN: u32 = 2 * 1024 * 1024;

/// Maximum number of delegate dependencies of a contract.
pub const MAX_DELEGATE_DEPENDENCIES: u32 = 32;

/// Depth of the contract call stack.
pub const CONTRACT_CALL_STACK_DEPTH: usize = 5;

/// Percentage of a code deposit locked for the uniqueness of its hash.
pub const CODE_HASH_LOCKUP_DEPOSIT_PERCENT: u32 = 10;

/// The runtime version.
pub struct RuntimeVersion {
    pub spec_name: String,
    pub impl_name: String,
    pub authoring_version: u32,
    pub spec_version: u32,
    pub impl_version: u32,
    pub transaction_version: u32,
    pub state_version: u8,
}

/// The version of the runtime when compiled natively.
pub struct NativeVersion {
    pub runtime_version: RuntimeVersion,
    /// Authoring versions this native runtime can author with besides its own.
    pub can_author_with: Vec<u32>,
}

/// What `version` holds.
pub open spec fn is_runtime_version(v: RuntimeVersion) -> bool {
    &&& v.spec_name@ == "dev-runtime"@
    &&& v.impl_name@ == "dev-runtime"@
    &&& v.authoring_version == 1
    &&& v.spec_version == 100
    &&& v.impl_version == 1
    &&& v.transaction_version == 1
    &&& v.state_version == 1
}

/// The runtime version (`VERSION`).
pub fn version() -> (v: RuntimeVersion)
    ensures
        is_runtime_version(v),
{
    RuntimeVersion {
        spec_name: String::from_str("dev-runtime"),
        impl_name: String::from_str("dev-runtime"),
        authoring_version: 1,
        spec_version: 100,
        impl_version: 1,
        transaction_version: 1,
        state_version: 1,
    }
}

/// The version information used to identify this runtime when compiled natively.
pub fn native_version() -> (n: NativeVersion)
    ensures
        is_runtime_version(n.runtime_version),
        n.can_author_with@.len() == 0,
{
    NativeVersion { runtime_version: version(), can_author_with: Vec::new() }
}

/// The storage deposit for `items` items taking `bytes` bytes.
pub open spec fn spec_deposit(items: nat, bytes: nat) -> nat {
    items * 15 * (MILILOST as nat) + bytes * 6 * (MILILOST as nat)
}

/// Storage deposit: 15 milli-tokens per item and 6 milli-tokens per byte.
pub fn deposit(items: u32, bytes: u32) -> (d: Balance)
    ensures
        d == spec_deposit(items as nat, bytes as nat),
{
    assert((items as nat) * 15 * (MILILOST as nat) <= 0xffff_ffff * 15_000_000_000_000)
        by (nonlinear_arith)
        requires items <= 0xffff_ffff, MILILOST == 1_000_000_000_000u128;
    assert((bytes as nat) * 6 * (MILILOST as nat) <= 0xffff_ffff * 6_000_000_000_000)
        by (nonlinear_arith)
        requires bytes <= 0xffff_ffff, MILILOST == 1_000_000_000_000u128;
    (items as Balance) * 15 * MILILOST + (bytes as Balance) * 6 * MILILOST
}

/// Deposit per contract storage item: `deposit(1, 0)`.
pub fn deposit_per_item() -> (d: Balance)
    ensures
        d == spec_deposit(1, 0),
        d == 15 * MILILOST,
{
    deposit(1, 0)
}

/// Deposit per byte of contract storage: `deposit(0, 1)`.
pub fn deposit_per_byte() -> (d: Balance)
    ensures
        d == spec_deposit(0, 1),
        d == 6 * MILILOST,
{
    deposit(0, 1)
}

/// Default limit of a contract storage deposit: `deposit(1024, 1024 * 1024)`.
pub fn default_deposit_limit() -> (d: Balance)
    ensures
        d == spec_deposit(1024, 1024 * 1024),
{
    deposit(1024, 1024 * 1024)
}

/// A deposit is the sum of what its items and its bytes cost, each priced alone.
pub proof fn lemma_deposit_additive(items: nat, bytes: nat)
    ensures
        spec_deposit(items, bytes) == spec_deposit(items, 0) + spec_deposit(0, bytes),
        spec_deposit(items, bytes) == items * spec_deposit(1, 0) + bytes * spec_deposit(0, 1),
{
    assert(items * 15 * (MILILOST as nat) == items * (15 * (MILILOST as nat)))
        by (nonlinear_arith);
    assert(bytes * 6 * (MILILOST as nat) == bytes * (6 * (MILILOST as nat)))
        by (nonlinear_arith);
}

/// Storing more never costs less.
pub proof fn lemma_deposit_monotonic(i1: nat, b1: nat, i2: nat, b2: nat)
    requires
        i1 <= i2,
        b1 <= b2,
    ensures
        spec_deposit(i1, b1) <= spec_deposit(i2, b2),
{
    assert(i1 * 15 * (MILILOST as nat) <= i2 * 15 * (MILILOST as nat)) by (nonlinear_arith)
        requires i1 <= i2;
    assert(b1 * 6 * (MILILOST as nat) <= b2 * 6 * (MILILOST as nat)) by (nonlinear_arith)
        requires b1 <= b2;
}

/// Minimum period between blocks of the timestamp pallet: half a slot.
pub fn minimum_period() -> (p: u64)
    ensures
        p == SLOT_DURATION / 2,
        p == 3000,
{
    SLOT_DURATION / 2
}

/// `NORMAL_DISPATCH_RATIO` in parts per billion.
pub fn normal_dispatch_ratio() -> (parts: u32)
    ensures
        parts == perbill_percent(NORMAL_DISPATCH_PERCENT as nat),
        parts == 750_000_000,
{
    perbill_from_percent(NORMAL_DISPATCH_PERCENT)
}

/// `AVERAGE_ON_INITIALIZE_RATIO` in parts per billion.
pub fn average_on_initialize_ratio() -> (parts: u32)
    ensures
        parts == perbill_percent(AVERAGE_ON_INITIALIZE_PERCENT as nat),
        parts == 100_000_000,
{
    perbill_from_percent(AVERAGE_ON_INITIALIZE_PERCENT)
}

/// `CodeHashLockupDepositPercent` in parts per billion.
pub fn code_hash_lockup_deposit_ratio() -> (parts: u32)
    ensures
        parts == 100_000_000,
{
    perbill_from_percent(CODE_HASH_LOCKUP_DEPOSIT_PERCENT)
}

/// The maximum weight of a block: two seconds of reference time, unlimited proof size.
pub fn maximum_block_weight() -> (w: Weight)
    ensures
        w.ref_time == 2_000_000_000_000u64,
        w.proof_size == u64::MAX,
{
    let per_second = weight_ref_time_per_second();
    // Two seconds, saturating at the bound of `u64`.
    let ref_time = match per_second.checked_mul(2) {
        Some(t) => t,
        None => u64::MAX,
    };
    Weight { ref_time, proof_size: u64::MAX }
}

/// The total weight normal extrinsics may use: `NORMAL_DISPATCH_RATIO * MAXIMUM_BLOCK_WEIGHT`.
pub fn normal_max_total() -> (w: Weight)
    ensures
        w.ref_time == perbill_apply(750_000_000, 2_000_000_000_000),
        w.proof_size == perbill_apply(750_000_000, u64::MAX as nat),
        w.ref_time == 1_500_000_000_000u64,
        w.proof_size == 13_835_058_055_282_163_711u64,
{
    let ratio = normal_dispatch_ratio();
    let max = maximum_block_weight();
    let w = perbill_mul_weight(ratio, max);
    assert(perbill_clamp(750_000_000) == 750_000_000);
    w
}

/// The weight reserved for operational extrinsics on top of what normal ones may use:
/// `MAXIMUM_BLOCK_WEIGHT - NORMAL_DISPATCH_RATIO * MAXIMUM_BLOCK_WEIGHT`.
pub fn operational_reserved() -> (w: Weight)
    ensures
        w.ref_time + normal_max_total_spec().ref_time == 2_000_000_000_000u64,
        w.proof_size + normal_max_total_spec().proof_size == u64::MAX,
        w.ref_time == 500_000_000_000u64,
        w.proof_size == 4_611_686_018_427_387_904u64,
{
    let max = maximum_block_weight();
    let normal = normal_max_total();
    Weight { ref_time: max.ref_time - normal.ref_time, proof_size: max.proof_size - normal.proof_size }
}

/// What `normal_max_total` returns.
pub open spec fn normal_max_total_spec() -> Weight {
    Weight {
        ref_time: perbill_apply(750_000_000, 2_000_000_000_000) as u64,
        proof_size: perbill_apply(750_000_000, u64::MAX as nat) as u64,
    }
}

/// The byte limits of a block for each dispatch class.
pub struct BlockLengthLimits {
    pub normal: u32,
    pub operational: u32,
    pub mandatory: u32,
}

/// Limits with a maximum of `max` bytes, of which normal extrinsics may use the
/// ratio `normal_parts` (parts per billion); the other classes may use all of it.
pub open spec fn max_with_normal_ratio_spec(max: nat, normal_parts: nat) -> (nat, nat, nat) {
    (perbill_apply(perbill_clamp(normal_parts), max), max, max)
}

/// Block length limits with a maximum of `max` bytes, of which normal extrinsics
/// may use the ratio `normal_parts` and the other classes all.
pub fn max_with_normal_ratio(max: u32, normal_parts: u32) -> (l: BlockLengthLimits)
    ensures
        (l.normal as nat, l.operational as nat, l.mandatory as nat) == max_with_normal_ratio_spec(
            max as nat,
            normal_parts as nat,
        ),
        l.normal <= max,
{
    let normal = perbill_mul_u64(normal_parts, max as u64);
    proof {
        lemma_perbill_apply_le(perbill_clamp(normal_parts as nat), max as nat);
    }
    BlockLengthLimits { normal: normal as u32, operational: max, mandatory: max }
}

/// The block length limits of the runtime: 5 MiB, three quarters of it for normal extrinsics.
pub fn runtime_block_length() -> (l: BlockLengthLimits)
    ensures
        l.normal == 3_932_160,
        l.operational == MAX_BLOCK_LENGTH,
        l.mandatory == MAX_BLOCK_LENGTH,
{
    let ratio = normal_dispatch_ratio();
    assert(MAX_BLOCK_LENGTH == 5_242_880);
    assert(perbill_clamp(750_000_000) == 750_000_000);
    assert(750_000_000nat * 5_242_880nat == 3_932_160_000_000_000nat);
    max_with_normal_ratio(MAX_BLOCK_LENGTH, ratio)
}

} // verus!
