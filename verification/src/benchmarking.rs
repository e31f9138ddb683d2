//! Transactions for the `benchmark overhead` and `benchmark extrinsic` commands:
//! which call each builder makes, who signs it and with which signed extensions.

use vstd::prelude::*;

use crate::era::{
    benchmark_era_period, benchmark_era_period_spec, era_mortal, least_pow2_geq, mortal_period,
    mortal_phase, phase_quantum, Era,
};
use crate::keys::{
    account_from_public, account_of_sr25519, keyring_public, keyring_public_key, AccountId,
    DevKeyring, PublicKey,
};
use crate::runtime_config::{version, Balance, BLOCK_HASH_COUNT};

verus! {

/// A runtime call made for benchmarking.
pub enum BenchmarkCall {
    /// `System::remark` with the given payload.
    Remark { remark: Vec<u8> },
    /// `Balances::transfer_keep_alive` of `value` to `dest`.
    TransferKeepAlive { dest: AccountId, value: Balance },
}

/// Makes `System::remark` extrinsics with an empty payload.
pub struct RemarkBuilder {}

impl RemarkBuilder {
    /// Creates a new builder.
    pub fn new() -> (b: RemarkBuilder) {
        RemarkBuilder {  }
    }

    /// The pallet of the benchmarked call.
    pub fn pallet(&self) -> (s: &'static str)
        ensures
            s@ == "system"@,
    {
        "system"
    }

    /// The name of the benchmarked call.
    pub fn extrinsic(&self) -> (s: &'static str)
        ensures
            s@ == "remark"@,
    {
        "remark"
    }

    /// The call this builder benchmarks: a remark with an empty payload.
    pub fn call(&self) -> (c: BenchmarkCall)
        ensures
            c matches BenchmarkCall::Remark { remark } && remark@.len() == 0,
    {
        BenchmarkCall::Remark { remark: Vec::new() }
    }

    /// A signed remark extrinsic with the given nonce on the given chain.
    pub fn build(&self, chain: &ChainInfo, nonce: u32) -> (x: BenchmarkExtrinsic)
        ensures
            x.call matches BenchmarkCall::Remark { remark } && remark@.len() == 0,
            is_benchmark_extra(x.extra, *chain, nonce),
            x.signer.bytes@ == account_of_sr25519(keyring_public(DevKeyring::Bob)),
    {
        create_benchmark_extrinsic(chain, keyring_public_key(DevKeyring::Bob), self.call(), nonce)
    }
}

/// Makes `Balances::transfer_keep_alive` extrinsics of a fixed value to a fixed account.
pub struct TransferKeepAliveBuilder {
    pub dest: AccountId,
    pub value: Balance,
}

impl TransferKeepAliveBuilder {
    /// Creates a new builder of transfers of `value` to `dest`.
    pub fn new(dest: AccountId, value: Balance) -> (b: TransferKeepAliveBuilder)
        ensures
            b.dest == dest,
            b.value == value,
    {
        TransferKeepAliveBuilder { dest, value }
    }

    /// The pallet of the benchmarked call.
    pub fn pallet(&self) -> (s: &'static str)
        ensures
            s@ == "balances"@,
    {
        "balances"
    }

    /// The name of the benchmarked call.
    pub fn extrinsic(&self) -> (s: &'static str)
        ensures
            s@ == "transfer_keep_alive"@,
    {
        "transfer_keep_alive"
    }

    /// The call this builder benchmarks.
    pub fn call(&self) -> (c: BenchmarkCall)
        ensures
            c matches BenchmarkCall::TransferKeepAlive { dest, value } && dest == self.dest
                && value == self.value,
    {
        BenchmarkCall::TransferKeepAlive { dest: self.dest, value: self.value }
    }

    /// A signed transfer extrinsic with the given nonce on the given chain.
    pub fn build(&self, chain: &ChainInfo, nonce: u32) -> (x: BenchmarkExtrinsic)
        ensures
            x.call matches BenchmarkCall::TransferKeepAlive { dest, value } && dest == self.dest
                && value == self.value,
            is_benchmark_extra(x.extra, *chain, nonce),
            x.signer.bytes@ == account_of_sr25519(keyring_public(DevKeyring::Bob)),
    {
        create_benchmark_extrinsic(chain, keyring_public_key(DevKeyring::Bob), self.call(), nonce)
    }
}

/// What the client reports of the chain: genesis hash, best block hash and number.
#[derive(Clone, Copy, Debug)]
pub struct ChainInfo {
    pub genesis_hash: [u8; 32],
    pub best_hash: [u8; 32],
    pub best_number: u32,
}

/// The signed extensions of a transaction and the data they sign.
#[derive(Clone, Copy, Debug)]
pub struct SignedExtra {
    /// Longevity of the transaction (`CheckEra`).
    pub era: Era,
    /// Nonce of the sender (`CheckNonce`).
    pub nonce: u32,
    /// Tip paid to the block author (`ChargeTransactionPayment`).
    pub tip: Balance,
    /// Runtime specification version (`CheckSpecVersion`).
    pub spec_version: u32,
    /// Transaction format version (`CheckTxVersion`).
    pub transaction_version: u32,
    /// Genesis hash (`CheckGenesis`).
    pub genesis_hash: [u8; 32],
    /// Hash of the block that begins the era (`CheckEra`).
    pub era_block_hash: [u8; 32],
}

/// A benchmark transaction before it is encoded and signed.
pub struct BenchmarkExtrinsic {
    pub call: BenchmarkCall,
    /// The account that signs it.
    pub signer: AccountId,
    pub extra: SignedExtra,
}

/// The era period of benchmark transactions: half of the smallest power of two
/// that is at least the number of kept block hashes.
pub open spec fn benchmark_period() -> nat {
    least_pow2_geq(BLOCK_HASH_COUNT as nat) / 2
}

/// `extra` are the signed extensions of a benchmark transaction with nonce `nonce`
/// on the chain `chain`.
pub open spec fn is_benchmark_extra(extra: SignedExtra, chain: ChainInfo, nonce: u32) -> bool {
    &&& extra.era == Era::Mortal {
        period: mortal_period(benchmark_period()) as u64,
        phase: mortal_phase(benchmark_period(), chain.best_number as nat) as u64,
    }
    &&& extra.nonce == nonce
    &&& extra.tip == 0
    &&& extra.spec_version == 100
    &&& extra.transaction_version == 1
    &&& extra.genesis_hash == chain.genesis_hash
    &&& extra.era_block_hash == chain.best_hash
}

/// A benchmark transaction of `call` with nonce `nonce`, signed by the account of
/// the sr25519 key `sender`, mortal from the best block of `chain`.
pub fn create_benchmark_extrinsic(
    chain: &ChainInfo,
    sender: PublicKey,
    call: BenchmarkCall,
    nonce: u32,
) -> (x: BenchmarkExtrinsic)
    ensures
        x.call == call,
        x.signer.bytes@ == account_of_sr25519(sender.bytes@),
        is_benchmark_extra(x.extra, *chain, nonce),
{
    let period = benchmark_era_period(BLOCK_HASH_COUNT);
    proof {
        lemma_benchmark_period();
    }
    let era = era_mortal(period, chain.best_number as u64);
    let v = version();
    BenchmarkExtrinsic {
        call,
        signer: account_from_public(sender),
        extra: SignedExtra {
            era,
            nonce,
            tip: 0,
            spec_version: v.spec_version,
            transaction_version: v.transaction_version,
            genesis_hash: chain.genesis_hash,
            era_block_hash: chain.best_hash,
        },
    }
}

/// The smallest power of two that is at least the number of kept block hashes
/// is 4096, and 2048 is its own smallest power of two.
proof fn lemma_benchmark_period()
    ensures
        least_pow2_geq(2400) == 4096,
        least_pow2_geq(2048) == 2048,
        benchmark_period() == 2048,
        benchmark_era_period_spec(BLOCK_HASH_COUNT as nat) == 2048,
{
    assert(least_pow2_geq(1) == 1);
    assert(least_pow2_geq(2) == 2 * least_pow2_geq(1));
    assert(least_pow2_geq(3) == 2 * least_pow2_geq(2));
    assert(least_pow2_geq(5) == 2 * least_pow2_geq(3));
    assert(least_pow2_geq(10) == 2 * least_pow2_geq(5));
    assert(least_pow2_geq(19) == 2 * least_pow2_geq(10));
    assert(least_pow2_geq(38) == 2 * least_pow2_geq(19));
    assert(least_pow2_geq(75) == 2 * least_pow2_geq(38));
    assert(least_pow2_geq(150) == 2 * least_pow2_geq(75));
    assert(least_pow2_geq(300) == 2 * least_pow2_geq(150));
    assert(least_pow2_geq(600) == 2 * least_pow2_geq(300));
    assert(least_pow2_geq(1200) == 2 * least_pow2_geq(600));
    assert(least_pow2_geq(2400) == 2 * least_pow2_geq(1200));
    assert(least_pow2_geq(4) == 2 * least_pow2_geq(2));
    assert(least_pow2_geq(8) == 2 * least_pow2_geq(4));
    assert(least_pow2_geq(16) == 2 * least_pow2_geq(8));
    assert(least_pow2_geq(32) == 2 * least_pow2_geq(16));
    assert(least_pow2_geq(64) == 2 * least_pow2_geq(32));
    assert(least_pow2_geq(128) == 2 * least_pow2_geq(64));
    assert(least_pow2_geq(256) == 2 * least_pow2_geq(128));
    assert(least_pow2_geq(512) == 2 * least_pow2_geq(256));
    assert(least_pow2_geq(1024) == 2 * least_pow2_geq(512));
    assert(least_pow2_geq(2048) == 2 * least_pow2_geq(1024));
}

/// Benchmark transactions live 2048 blocks from the best block, whose number
/// modulo 2048 is their phase.
pub proof fn lemma_benchmark_era(best_number: nat)
    ensures
        mortal_period(benchmark_period()) == 2048,
        mortal_phase(benchmark_period(), best_number) == best_number % 2048,
{
    lemma_benchmark_period();
    assert(mortal_period(2048) == 2048);
    assert(phase_quantum(2048) == 1);
    let r = best_number % 2048;
    assert(r / 1 * 1 == r) by (nonlinear_arith);
    assert(mortal_phase(2048, best_number) == r);
}

} // verus!
