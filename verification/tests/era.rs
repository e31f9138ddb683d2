use logos_dev::benchmarking::{create_benchmark_extrinsic, BenchmarkCall, ChainInfo};
use logos_dev::keys::PublicKey;

const SENDER: PublicKey = PublicKey { bytes: [8u8; 32] };
use logos_dev::era::{benchmark_era_period, Era};

#[test]
fn benchmark_era_period_halves_next_power_of_two() {
    assert_eq!(benchmark_era_period(2400), 2048);
    assert_eq!(benchmark_era_period(2048), 1024);
    assert_eq!(benchmark_era_period(3), 2);
    assert_eq!(benchmark_era_period(1), 0);
    assert_eq!(benchmark_era_period(0), 0);
    assert_eq!(benchmark_era_period(1 << 31), 1 << 30);
}

#[test]
fn benchmark_era_period_without_power_of_two() {
    assert_eq!(benchmark_era_period((1 << 31) + 1), 2);
    assert_eq!(benchmark_era_period(u32::MAX), 2);
}

fn chain(best_number: u32) -> ChainInfo {
    ChainInfo { genesis_hash: [1u8; 32], best_hash: [2u8; 32], best_number }
}

#[test]
fn benchmark_extrinsic_era_starts_at_best_block() {
    let x = create_benchmark_extrinsic(&chain(5000), SENDER, BenchmarkCall::Remark { remark: vec![] }, 7);
    assert_eq!(x.extra.era, Era::Mortal { period: 2048, phase: 904 });
    let x = create_benchmark_extrinsic(&chain(100), SENDER, BenchmarkCall::Remark { remark: vec![] }, 7);
    assert_eq!(x.extra.era, Era::Mortal { period: 2048, phase: 100 });
    let x = create_benchmark_extrinsic(&chain(u32::MAX), SENDER, BenchmarkCall::Remark { remark: vec![] }, 0);
    assert_eq!(x.extra.era, Era::Mortal { period: 2048, phase: (u32::MAX % 2048) as u64 });
}

#[test]
fn benchmark_extrinsic_signed_extensions() {
    let x = create_benchmark_extrinsic(&chain(5), SENDER, BenchmarkCall::Remark { remark: vec![] }, 42);
    assert_eq!(x.extra.nonce, 42);
    assert_eq!(x.extra.tip, 0);
    assert_eq!(x.extra.spec_version, 100);
    assert_eq!(x.extra.transaction_version, 1);
    assert_eq!(x.extra.genesis_hash, [1u8; 32]);
    assert_eq!(x.extra.era_block_hash, [2u8; 32]);
}

#[test]
fn benchmark_extrinsic_is_signed_by_the_given_sender() {
    let x = create_benchmark_extrinsic(&chain(5), SENDER, BenchmarkCall::Remark { remark: vec![1] }, 0);
    assert_eq!(x.signer.bytes, [8u8; 32]);
    let other = PublicKey { bytes: [9u8; 32] };
    let y = create_benchmark_extrinsic(&chain(5), other, BenchmarkCall::Remark { remark: vec![1] }, 0);
    assert_eq!(y.signer.bytes, [9u8; 32]);
}
