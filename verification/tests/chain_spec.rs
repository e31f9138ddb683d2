use logos_dev::chain_spec::{
    dev_genesis, development_config, local_devnet_config, token_properties, ChainType, DevKeys,
};
use logos_dev::keys::{get_account_id_from_seed, get_from_seed, AccountId, KeyScheme, PublicKey};
use logos_dev::runtime_config::LOST;

fn key(b: u8) -> PublicKey {
    PublicKey { bytes: [b; 32] }
}

fn acc(b: u8) -> AccountId {
    AccountId { bytes: [b; 32] }
}

#[test]
fn dev_genesis_endows_and_orders_authorities() {
    let g = dev_genesis(vec![(key(1), key(2)), (key(3), key(4))], acc(9), vec![acc(5), acc(6), acc(7)], true);
    assert_eq!(g.balances.len(), 3);
    for (i, b) in [5u8, 6, 7].iter().enumerate() {
        assert_eq!(g.balances[i].0.bytes, [*b; 32]);
        assert_eq!(g.balances[i].1, 1_000 * LOST);
    }
    assert_eq!(g.aura_authorities.len(), 2);
    assert_eq!(g.aura_authorities[0].bytes, [1u8; 32]);
    assert_eq!(g.aura_authorities[1].bytes, [3u8; 32]);
    assert_eq!(g.grandpa_authorities.len(), 2);
    assert_eq!(g.grandpa_authorities[0].0.bytes, [2u8; 32]);
    assert_eq!(g.grandpa_authorities[1].0.bytes, [4u8; 32]);
    assert_eq!(g.grandpa_authorities[0].1, 1);
    assert_eq!(g.grandpa_authorities[1].1, 1);
    assert_eq!(g.sudo_key.unwrap().bytes, [9u8; 32]);
}

#[test]
fn dev_genesis_with_nothing_to_endow() {
    let g = dev_genesis(vec![], acc(1), vec![], false);
    assert!(g.balances.is_empty());
    assert!(g.aura_authorities.is_empty());
    assert!(g.grandpa_authorities.is_empty());
    assert_eq!(g.sudo_key.unwrap().bytes, [1u8; 32]);
}

#[test]
fn development_config_without_wasm_fails() {
    let keys = DevKeys::derive().unwrap();
    let r = development_config(None, &keys);
    assert_eq!(r.err().unwrap(), "Development wasm not available");
    let r = local_devnet_config(None, &keys);
    assert_eq!(r.err().unwrap(), "Development wasm not available");
}

#[test]
fn development_config_contents() {
    let keys = DevKeys::derive().unwrap();
    let code = [0u8, 97, 115, 109];
    let c = development_config(Some(&code), &keys).ok().unwrap();
    assert_eq!(c.code, &code);
    assert_eq!(c.name, "Logos Development");
    assert_eq!(c.id, "dev");
    assert_eq!(c.chain_type, ChainType::Development);
    assert_eq!(c.properties.token_symbol, "LOST");
    assert_eq!(c.properties.token_decimals, 18);
    let alice = get_account_id_from_seed("Alice").bytes;
    let bob = get_account_id_from_seed("Bob").bytes;
    assert_eq!(c.genesis.sudo_key.unwrap().bytes, alice);
    let endowed: Vec<[u8; 32]> = c.genesis.balances.iter().map(|b| b.0.bytes).collect();
    assert_eq!(endowed, vec![alice, bob]);
    assert_eq!(c.genesis.aura_authorities.len(), 1);
    assert_eq!(c.genesis.aura_authorities[0].bytes, get_from_seed(KeyScheme::Sr25519, "Alice").bytes);
    assert_eq!(c.genesis.grandpa_authorities[0].0.bytes, get_from_seed(KeyScheme::Ed25519, "Alice").bytes);
}

#[test]
fn local_devnet_config_contents() {
    let keys = DevKeys::derive().unwrap();
    let code = [1u8, 2, 3];
    let c = local_devnet_config(Some(&code), &keys).ok().unwrap();
    assert_eq!(c.name, "Logos Local Testnet");
    assert_eq!(c.id, "local_testnet");
    assert_eq!(c.chain_type, ChainType::Local);
    let seeds = ["Alice", "Bob", "Charlie", "Dave", "Eve", "Ferdie"];
    let endowed: Vec<[u8; 32]> = c.genesis.balances.iter().map(|b| b.0.bytes).collect();
    let expected: Vec<[u8; 32]> = seeds.iter().map(|s| get_account_id_from_seed(s).bytes).collect();
    assert_eq!(endowed, expected);
    assert!(c.genesis.balances.iter().all(|b| b.1 == 1_000 * LOST));
    let aura: Vec<[u8; 32]> = c.genesis.aura_authorities.iter().map(|k| k.bytes).collect();
    assert_eq!(aura, vec![
        get_from_seed(KeyScheme::Sr25519, "Alice").bytes,
        get_from_seed(KeyScheme::Sr25519, "Bob").bytes,
    ]);
    let grandpa: Vec<([u8; 32], u64)> = c.genesis.grandpa_authorities.iter().map(|k| (k.0.bytes, k.1)).collect();
    assert_eq!(grandpa, vec![
        (get_from_seed(KeyScheme::Ed25519, "Alice").bytes, 1),
        (get_from_seed(KeyScheme::Ed25519, "Bob").bytes, 1),
    ]);
    assert_eq!(c.genesis.sudo_key.unwrap().bytes, get_account_id_from_seed("Alice").bytes);
}

#[test]
fn token_properties_are_lost_with_18_decimals() {
    let p = token_properties();
    assert_eq!(p.token_symbol, "LOST");
    assert_eq!(p.token_decimals, 18);
}

#[test]
fn genesis_total_issuance_is_endowment_times_accounts() {
    let keys = DevKeys::derive().unwrap();
    let code = [0u8];
    let c = local_devnet_config(Some(&code), &keys).ok().unwrap();
    let total: u128 = c.genesis.balances.iter().map(|b| b.1).sum();
    assert_eq!(total, 6 * 1_000 * LOST);
    let c = development_config(Some(&code), &keys).ok().unwrap();
    let total: u128 = c.genesis.balances.iter().map(|b| b.1).sum();
    assert_eq!(total, 2 * 1_000 * LOST);
}
