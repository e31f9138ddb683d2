//! Development keys: public keys derived from seeds with the Substrate
//! development phrase, and the account identifiers they stand for.

use vstd::prelude::*;

verus! {

/// The signature schemes of the chain's authority keys.
#[derive(Clone, Copy, Debug, PartialEq, Eq, Structural)]
pub enum KeyScheme {
    /// Schnorrkel keys: accounts and Aura authorities.
    Sr25519,
    /// Edwards keys: GRANDPA authorities.
    Ed25519,
}

/// A 32-byte public key.
#[derive(Clone, Copy, Debug)]
pub struct PublicKey {
    pub bytes: [u8; 32],
}

/// A 32-byte account identifier.
#[derive(Clone, Copy, Debug)]
pub struct AccountId {
    pub bytes: [u8; 32],
}

/// The public key that `sp_core::sr25519::Pair::from_string(suri, None)` derives,
/// or `None` where it refuses the secret URI.
pub uninterp spec fn sr25519_public_of_suri(suri: Seq<char>) -> Option<Seq<u8>>;

/// The public key that `sp_core::ed25519::Pair::from_string(suri, None)` derives,
/// or `None` where it refuses the secret URI.
pub uninterp spec fn ed25519_public_of_suri(suri: Seq<char>) -> Option<Seq<u8>>;

/// `sp_core::sr25519::Pair::from_string` followed by `Pair::public`.
/// Claimed: the outcome is the named `sr25519_public_of_suri` of the URI; the
/// derivation is a function of the URI alone.
#[verifier::external_body]
fn sr25519_public_from_suri(suri: &str) -> (r: Option<[u8; 32]>)
    ensures
        match r {
            Some(k) => sr25519_public_of_suri(suri@) == Some(k@),
            None => sr25519_public_of_suri(suri@) is None,
        },
{
    match <sp_core::sr25519::Pair as sp_core::Pair>::from_string(suri, None) {
        Ok(pair) => Some(sp_core::Pair::public(&pair).0),
        Err(_) => None,
    }
}

/// `sp_core::ed25519::Pair::from_string` followed by `Pair::public`.
/// Claimed: the outcome is the named `ed25519_public_of_suri` of the URI; the
/// derivation is a function of the URI alone.
#[verifier::external_body]
fn ed25519_public_from_suri(suri: &str) -> (r: Option<[u8; 32]>)
    ensures
        match r {
            Some(k) => ed25519_public_of_suri(suri@) == Some(k@),
            None => ed25519_public_of_suri(suri@) is None,
        },
{
    match <sp_core::ed25519::Pair as sp_core::Pair>::from_string(suri, None) {
        Ok(pair) => Some(sp_core::Pair::public(&pair).0),
        Err(_) => None,
    }
}

/// `IdentifyAccount::into_account` of `sp_runtime::MultiSigner` on an sr25519 key.
/// Claimed, as its source shows: the account identifier holds the 32 bytes of the key.
#[verifier::external_body]
fn sr25519_into_account(key: [u8; 32]) -> (a: [u8; 32])
    ensures
        a@ == key@,
{
    let signer = sp_runtime::MultiSigner::from(sp_core::sr25519::Public::from_raw(key));
    let account: sp_runtime::AccountId32 = sp_runtime::traits::IdentifyAccount::into_account(
        signer,
    );
    account.into()
}

/// The secret URI of a development seed: the seed as a hard junction of the
/// development phrase.
pub open spec fn dev_suri(seed: Seq<char>) -> Seq<char> {
    "//"@ + seed
}

/// The public key of scheme `scheme` derived from a development seed.
pub open spec fn public_of_seed(scheme: KeyScheme, seed: Seq<char>) -> Option<Seq<u8>> {
    match scheme {
        KeyScheme::Sr25519 => sr25519_public_of_suri(dev_suri(seed)),
        KeyScheme::Ed25519 => ed25519_public_of_suri(dev_suri(seed)),
    }
}

/// Whether a development seed yields a key of scheme `scheme`.
pub open spec fn seed_derivable(scheme: KeyScheme, seed: Seq<char>) -> bool {
    public_of_seed(scheme, seed) is Some
}

/// The account identifier of an sr25519 public key: its 32 bytes.
pub open spec fn account_of_sr25519(key: Seq<u8>) -> Seq<u8> {
    key
}

/// The account derived from a development seed.
pub open spec fn account_of_seed(seed: Seq<char>) -> Seq<u8> {
    account_of_sr25519(public_of_seed(KeyScheme::Sr25519, seed)->Some_0)
}

fn derive_public(scheme: KeyScheme, seed: &str) -> (r: Option<[u8; 32]>)
    ensures
        match r {
            Some(k) => public_of_seed(scheme, seed@) == Some(k@),
            None => public_of_seed(scheme, seed@) is None,
        },
{
    let suri = String::from_str("//").concat(seed);
    match scheme {
        KeyScheme::Sr25519 => sr25519_public_from_suri(suri.as_str()),
        KeyScheme::Ed25519 => ed25519_public_from_suri(suri.as_str()),
    }
}

/// The public key derived from a development seed (`//seed`).
pub fn get_from_seed(scheme: KeyScheme, seed: &str) -> (k: PublicKey)
    requires
        seed_derivable(scheme, seed@),
    ensures
        public_of_seed(scheme, seed@) == Some(k.bytes@),
{
    match derive_public(scheme, seed) {
        Some(bytes) => PublicKey { bytes },
        None => {
            assert(false);
            PublicKey { bytes: [0u8; 32] }
        },
    }
}

/// The public key derived from a development seed, or `None` where the seed
/// does not make a valid secret URI.
pub fn try_get_from_seed(scheme: KeyScheme, seed: &str) -> (r: Option<PublicKey>)
    ensures
        match r {
            Some(k) => public_of_seed(scheme, seed@) == Some(k.bytes@),
            None => !seed_derivable(scheme, seed@),
        },
{
    match derive_public(scheme, seed) {
        Some(_) => Some(get_from_seed(scheme, seed)),
        None => None,
    }
}

/// The account identifier of an sr25519 public key.
pub fn account_from_public(key: PublicKey) -> (a: AccountId)
    ensures
        a.bytes@ == account_of_sr25519(key.bytes@),
{
    AccountId { bytes: sr25519_into_account(key.bytes) }
}

/// The account identifier derived from a development seed.
pub fn get_account_id_from_seed(seed: &str) -> (a: AccountId)
    requires
        seed_derivable(KeyScheme::Sr25519, seed@),
    ensures
        a.bytes@ == account_of_seed(seed@),
{
    account_from_public(get_from_seed(KeyScheme::Sr25519, seed))
}

/// The Aura (sr25519) and GRANDPA (ed25519) authority keys of a development seed.
pub fn authority_keys_from_seed(s: &str) -> (keys: (PublicKey, PublicKey))
    requires
        seed_derivable(KeyScheme::Sr25519, s@),
        seed_derivable(KeyScheme::Ed25519, s@),
    ensures
        public_of_seed(KeyScheme::Sr25519, s@) == Some(keys.0.bytes@),
        public_of_seed(KeyScheme::Ed25519, s@) == Some(keys.1.bytes@),
{
    (get_from_seed(KeyScheme::Sr25519, s), get_from_seed(KeyScheme::Ed25519, s))
}

/// Well-known development accounts of the sr25519 keyring.
#[derive(Clone, Copy, Debug, PartialEq, Eq, Structural)]
pub enum DevKeyring {
    Alice,
    Bob,
}

/// The public key of a keyring account, as the keyring lists it.
pub open spec fn keyring_public(who: DevKeyring) -> Seq<u8> {
    match who {
        DevKeyring::Alice => seq![
            0xd4u8, 0x35, 0x93, 0xc7, 0x15, 0xfd, 0xd3, 0x1c, 0x61, 0x14, 0x1a, 0xbd, 0x04, 0xa9,
            0x9f, 0xd6, 0x82, 0x2c, 0x85, 0x58, 0x85, 0x4c, 0xcd, 0xe3, 0x9a, 0x56, 0x84, 0xe7,
            0xa5, 0x6d, 0xa2, 0x7d,
        ],
        DevKeyring::Bob => seq![
            0x8eu8, 0xaf, 0x04, 0x15, 0x16, 0x87, 0x73, 0x63, 0x26, 0xc9, 0xfe, 0xa1, 0x7e, 0x25,
            0xfc, 0x52, 0x87, 0x61, 0x36, 0x93, 0xc9, 0x12, 0x90, 0x9c, 0xb2, 0x26, 0xaa, 0x47,
            0x94, 0xf2, 0x6a, 0x48,
        ],
    }
}

/// `sp_keyring::Sr25519Keyring::to_account_id`.
/// Claimed, as its source shows: the account holds the 32 bytes of the public key
/// that the keyring lists for that name.
#[verifier::external_body]
pub(crate) fn keyring_account_id(who: DevKeyring) -> (a: AccountId)
    ensures
        a.bytes@ == keyring_public(who),
{
    let k = match who {
        DevKeyring::Alice => sp_keyring::Sr25519Keyring::Alice,
        DevKeyring::Bob => sp_keyring::Sr25519Keyring::Bob,
    };
    AccountId { bytes: k.to_account_id().into() }
}

/// `sp_keyring::Sr25519Keyring::public`.
/// Claimed, as its source shows: the public key holds the 32 bytes that the
/// keyring lists for that name.
#[verifier::external_body]
pub(crate) fn keyring_public_key(who: DevKeyring) -> (k: PublicKey)
    ensures
        k.bytes@ == keyring_public(who),
{
    let k = match who {
        DevKeyring::Alice => sp_keyring::Sr25519Keyring::Alice,
        DevKeyring::Bob => sp_keyring::Sr25519Keyring::Bob,
    };
    PublicKey { bytes: k.public().0 }
}

} // verus!
