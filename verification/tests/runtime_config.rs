use logos_dev::runtime_config::{
    average_on_initialize_ratio, code_hash_lockup_deposit_ratio, default_deposit_limit, deposit,
    deposit_per_byte, deposit_per_item, max_with_normal_ratio, maximum_block_weight,
    minimum_period, native_version, normal_dispatch_ratio, normal_max_total,
    operational_reserved, runtime_block_length, version, DAYS, EXISTENTIAL_DEPOSIT, HOURS, LOST,
    MICROLOST, MILILOST, MILLISECS_PER_BLOCK, MINUTES, SLOT_DURATION,
};

#[test]
fn deposit_prices_items_and_bytes() {
    assert_eq!(deposit(0, 0), 0);
    assert_eq!(deposit(1, 0), 15_000_000_000_000);
    assert_eq!(deposit(0, 1), 6_000_000_000_000);
    assert_eq!(deposit(2, 3), 2 * 15 * MILILOST + 3 * 6 * MILILOST);
}

#[test]
fn deposit_of_largest_inputs_does_not_overflow() {
    let m = u32::MAX as u128;
    assert_eq!(deposit(u32::MAX, u32::MAX), m * 15 * MILILOST + m * 6 * MILILOST);
}

#[test]
fn deposit_is_additive() {
    assert_eq!(deposit(3, 7), deposit(3, 0) + deposit(0, 7));
    assert_eq!(deposit(3, 7), 3 * deposit_per_item() + 7 * deposit_per_byte());
}

#[test]
fn contract_deposit_parameters() {
    assert_eq!(deposit_per_item(), 15 * MILILOST);
    assert_eq!(deposit_per_byte(), 6 * MILILOST);
    assert_eq!(default_deposit_limit(), 6_306_816_000_000_000_000);
    assert_eq!(default_deposit_limit(), deposit(1024, 1024 * 1024));
}

#[test]
fn currency_and_time_units() {
    assert_eq!(MICROLOST, 1_000_000_000);
    assert_eq!(MILILOST, 1_000_000_000_000);
    assert_eq!(LOST, 1_000_000_000_000_000);
    assert_eq!(EXISTENTIAL_DEPOSIT, 500);
    assert_eq!(MILLISECS_PER_BLOCK, 6000);
    assert_eq!(SLOT_DURATION, 6000);
    assert_eq!(MINUTES as u64 * MILLISECS_PER_BLOCK, 60_000);
    assert_eq!(HOURS, 600);
    assert_eq!(DAYS, 14_400);
    assert_eq!(minimum_period(), 3000);
}

#[test]
fn runtime_version_fields() {
    let v = version();
    assert_eq!(v.spec_name, "dev-runtime");
    assert_eq!(v.impl_name, "dev-runtime");
    assert_eq!(v.authoring_version, 1);
    assert_eq!(v.spec_version, 100);
    assert_eq!(v.impl_version, 1);
    assert_eq!(v.transaction_version, 1);
    assert_eq!(v.state_version, 1);
    let n = native_version();
    assert_eq!(n.runtime_version.spec_version, 100);
    assert!(n.can_author_with.is_empty());
}

#[test]
fn dispatch_ratios_in_parts_per_billion() {
    assert_eq!(normal_dispatch_ratio(), 750_000_000);
    assert_eq!(average_on_initialize_ratio(), 100_000_000);
    assert_eq!(code_hash_lockup_deposit_ratio(), 100_000_000);
}

#[test]
fn block_weight_limits() {
    let max = maximum_block_weight();
    assert_eq!(max.ref_time, 2_000_000_000_000);
    assert_eq!(max.proof_size, u64::MAX);
    let normal = normal_max_total();
    assert_eq!(normal.ref_time, 1_500_000_000_000);
    assert_eq!(normal.proof_size, 13_835_058_055_282_163_711);
    let reserved = operational_reserved();
    assert_eq!(reserved.ref_time, 500_000_000_000);
    assert_eq!(reserved.proof_size, 4_611_686_018_427_387_904);
    assert_eq!(reserved.ref_time + normal.ref_time, max.ref_time);
    assert_eq!(reserved.proof_size + normal.proof_size, max.proof_size);
}

#[test]
fn block_length_limits() {
    let l = runtime_block_length();
    assert_eq!(l.normal, 3_932_160);
    assert_eq!(l.operational, 5 * 1024 * 1024);
    assert_eq!(l.mandatory, 5 * 1024 * 1024);
}

#[test]
fn normal_ratio_rounds_to_nearest_with_ties_down() {
    assert_eq!(max_with_normal_ratio(10, 500_000_000).normal, 5);
    assert_eq!(max_with_normal_ratio(1, 500_000_000).normal, 0);
    assert_eq!(max_with_normal_ratio(3, 500_000_000).normal, 1);
    assert_eq!(max_with_normal_ratio(2, 750_000_000).normal, 1);
    assert_eq!(max_with_normal_ratio(3, 750_000_000).normal, 2);
    assert_eq!(max_with_normal_ratio(10, 2_000_000_000).normal, 10);
    assert_eq!(max_with_normal_ratio(10, 0).normal, 0);
    assert_eq!(max_with_normal_ratio(10, 0).operational, 10);
}
