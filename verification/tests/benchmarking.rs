use logos_dev::benchmarking::{BenchmarkCall, ChainInfo, RemarkBuilder, TransferKeepAliveBuilder};
use logos_dev::keys::AccountId;

fn chain() -> ChainInfo {
    ChainInfo { genesis_hash: [3u8; 32], best_hash: [4u8; 32], best_number: 2049 }
}

const BOB: [u8; 4] = [0x8e, 0xaf, 0x04, 0x15];

#[test]
fn remark_builder_names_and_call() {
    let b = RemarkBuilder::new();
    assert_eq!(b.pallet(), "system");
    assert_eq!(b.extrinsic(), "remark");
    let x = b.build(&chain(), 3);
    match x.call {
        BenchmarkCall::Remark { remark } => assert!(remark.is_empty()),
        _ => panic!("expected a remark"),
    }
    assert_eq!(x.signer.bytes[..4], BOB);
    assert_eq!(x.extra.nonce, 3);
}

#[test]
fn transfer_builder_names_and_call() {
    let dest = AccountId { bytes: [5u8; 32] };
    let b = TransferKeepAliveBuilder::new(dest, 500);
    assert_eq!(b.pallet(), "balances");
    assert_eq!(b.extrinsic(), "transfer_keep_alive");
    let x = b.build(&chain(), 11);
    match x.call {
        BenchmarkCall::TransferKeepAlive { dest, value } => {
            assert_eq!(dest.bytes, [5u8; 32]);
            assert_eq!(value, 500);
        },
        _ => panic!("expected a transfer"),
    }
    assert_eq!(x.signer.bytes[..4], BOB);
    assert_eq!(x.extra.nonce, 11);
    assert_eq!(x.extra.genesis_hash, [3u8; 32]);
}
