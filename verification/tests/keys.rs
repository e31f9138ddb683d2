use logos_dev::keys::{
    account_from_public, authority_keys_from_seed, get_account_id_from_seed, get_from_seed,
    try_get_from_seed, KeyScheme, PublicKey,
};

fn hex32(s: &str) -> [u8; 32] {
    let mut out = [0u8; 32];
    for i in 0..32 {
        out[i] = u8::from_str_radix(&s[2 * i..2 * i + 2], 16).unwrap();
    }
    out
}

#[test]
fn sr25519_keys_of_well_known_seeds() {
    assert_eq!(
        get_from_seed(KeyScheme::Sr25519, "Alice").bytes,
        hex32("d43593c715fdd31c61141abd04a99fd6822c8558854ccde39a5684e7a56da27d")
    );
    assert_eq!(
        get_from_seed(KeyScheme::Sr25519, "Bob").bytes,
        hex32("8eaf04151687736326c9fea17e25fc5287613693c912909cb226aa4794f26a48")
    );
}

#[test]
fn ed25519_keys_of_well_known_seeds() {
    assert_eq!(
        get_from_seed(KeyScheme::Ed25519, "Alice").bytes,
        hex32("88dc3417d5058ec4b4503e0c12ea1a0a89be200fe98922423d4334014fa6b0ee")
    );
    assert_eq!(
        get_from_seed(KeyScheme::Ed25519, "Bob").bytes,
        hex32("d17c2d7823ebf260fd138f2d7e27d114c0145d968b5ff5006125f2414fadae69")
    );
}

#[test]
fn authority_keys_pair_both_schemes() {
    let (aura, grandpa) = authority_keys_from_seed("Alice");
    assert_eq!(aura.bytes, get_from_seed(KeyScheme::Sr25519, "Alice").bytes);
    assert_eq!(grandpa.bytes, get_from_seed(KeyScheme::Ed25519, "Alice").bytes);
    assert_ne!(aura.bytes, grandpa.bytes);
}

#[test]
fn account_ids_are_sr25519_key_bytes() {
    assert_eq!(
        get_account_id_from_seed("Charlie").bytes,
        hex32("90b5ab205c6974c9ea841be688864633dc9ca8a357843eeacf2314649965fe22")
    );
    let key = PublicKey { bytes: [7u8; 32] };
    assert_eq!(account_from_public(key).bytes, [7u8; 32]);
}

#[test]
fn try_get_from_seed_agrees_with_get_from_seed() {
    let k = try_get_from_seed(KeyScheme::Sr25519, "Dave").unwrap();
    assert_eq!(k.bytes, get_from_seed(KeyScheme::Sr25519, "Dave").bytes);
    assert_ne!(k.bytes, get_from_seed(KeyScheme::Sr25519, "Eve").bytes);
}

#[test]
fn try_get_from_seed_refuses_an_invalid_uri() {
    assert!(try_get_from_seed(KeyScheme::Sr25519, "").is_none());
    assert!(try_get_from_seed(KeyScheme::Ed25519, "").is_none());
}
