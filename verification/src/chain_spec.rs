//! Chain specifications of the single-node development chain and of the local
//! development network, with their genesis configuration.

use vstd::prelude::*;

use crate::keys::{
    account_of_seed, authority_keys_from_seed, get_account_id_from_seed, public_of_seed,
    seed_derivable, try_get_from_seed, AccountId, KeyScheme, PublicKey,
};
use crate::runtime_config::{Balance, LOST};

verus! {

/// The kind of chain a specification describes.
#[derive(Clone, Copy, Debug, PartialEq, Eq, Structural)]
pub enum ChainType {
    Development,
    Local,
}

/// Chain properties shown to wallets.
pub struct ChainProperties {
    pub token_symbol: String,
    pub token_decimals: u32,
}

/// The genesis configuration of the balances, Aura, GRANDPA and sudo pallets.
pub struct GenesisPatch {
    /// Initial balance of each endowed account.
    pub balances: Vec<(AccountId, Balance)>,
    /// Initial Aura authorities (block production).
    pub aura_authorities: Vec<PublicKey>,
    /// Initial GRANDPA authorities (finality) with their voting weights.
    pub grandpa_authorities: Vec<(PublicKey, u64)>,
    /// The sudo account.
    pub sudo_key: Option<AccountId>,
}

/// A chain specification: runtime code, identity, properties and genesis.
pub struct ChainSpecConfig<'a> {
    pub code: &'a [u8],
    pub name: String,
    pub id: String,
    pub chain_type: ChainType,
    pub properties: ChainProperties,
    pub genesis: GenesisPatch,
}

/// Initial balance of every endowed account: 1000 tokens.
pub open spec fn endowment() -> nat {
    1_000 * (LOST as nat)
}

/// `g` is the genesis of the authorities `authorities` (Aura key, GRANDPA key),
/// the sudo account `root` and the endowed accounts `endowed`, all by their bytes.
pub open spec fn genesis_matches(
    g: GenesisPatch,
    authorities: Seq<(Seq<u8>, Seq<u8>)>,
    root: Seq<u8>,
    endowed: Seq<Seq<u8>>,
) -> bool {
    &&& g.balances@.len() == endowed.len()
    &&& forall|i: int|
        0 <= i < endowed.len() ==> {
            &&& (#[trigger] g.balances@[i]).0.bytes@ == endowed[i]
            &&& g.balances@[i].1 == endowment()
        }
    &&& g.aura_authorities@.len() == authorities.len()
    &&& forall|i: int|
        0 <= i < authorities.len() ==> (#[trigger] g.aura_authorities@[i]).bytes@
            == authorities[i].0
    &&& g.grandpa_authorities@.len() == authorities.len()
    &&& forall|i: int|
        0 <= i < authorities.len() ==> {
            &&& (#[trigger] g.grandpa_authorities@[i]).0.bytes@ == authorities[i].1
            &&& g.grandpa_authorities@[i].1 == 1
        }
    &&& g.sudo_key is Some
    &&& g.sudo_key->Some_0.bytes@ == root
}

/// The sum of the balances of a genesis.
pub open spec fn total_balance(b: Seq<(AccountId, Balance)>) -> nat
    decreases b.len(),
{
    if b.len() == 0 {
        0
    } else {
        total_balance(b.drop_last()) + b.last().1 as nat
    }
}

/// The total issuance at genesis is the endowment times the number of endowed accounts.
pub proof fn lemma_genesis_total_issuance(
    g: GenesisPatch,
    authorities: Seq<(Seq<u8>, Seq<u8>)>,
    root: Seq<u8>,
    endowed: Seq<Seq<u8>>,
)
    requires
        genesis_matches(g, authorities, root, endowed),
    ensures
        total_balance(g.balances@) == endowed.len() * endowment(),
{
    let b = g.balances@;
    assert forall|n: int| 0 <= n <= b.len() implies #[trigger] total_balance(b.take(n)) == n
        * endowment() by {
        lemma_prefix_total(b, n);
    }
    assert(b.take(b.len() as int) =~= b);
}

proof fn lemma_prefix_total(b: Seq<(AccountId, Balance)>, n: int)
    requires
        0 <= n <= b.len(),
        forall|i: int| 0 <= i < b.len() ==> (#[trigger] b[i]).1 == endowment(),
    ensures
        total_balance(b.take(n)) == n * endowment(),
    decreases n,
{
    if n > 0 {
        lemma_prefix_total(b, n - 1);
        let t = b.take(n);
        assert(t.drop_last() =~= b.take(n - 1));
        assert(t.last() == b[n - 1]);
        assert(b[n - 1].1 == endowment());
        assert(total_balance(t) == total_balance(t.drop_last()) + t.last().1 as nat);
        assert(n * endowment() == (n - 1) * endowment() + endowment()) by (nonlinear_arith);
    } else {
        assert(b.take(0).len() == 0);
        assert(0 * endowment() == 0) by (nonlinear_arith);
    }
}

/// The key bytes of a list of authority key pairs.
pub open spec fn authority_bytes(a: Seq<(PublicKey, PublicKey)>) -> Seq<(Seq<u8>, Seq<u8>)> {
    a.map_values(|k: (PublicKey, PublicKey)| (k.0.bytes@, k.1.bytes@))
}

/// The bytes of a list of accounts.
pub open spec fn account_bytes(a: Seq<AccountId>) -> Seq<Seq<u8>> {
    a.map_values(|k: AccountId| k.bytes@)
}

/// The genesis configuration: each endowed account holds 1000 tokens, the Aura
/// authorities are the first keys and the GRANDPA authorities the second keys of
/// `initial_authorities`, each with weight 1, and `root_key` is the sudo account.
pub fn dev_genesis(
    initial_authorities: Vec<(PublicKey, PublicKey)>,
    root_key: AccountId,
    endowed_accounts: Vec<AccountId>,
    _enable_println: bool,
) -> (g: GenesisPatch)
    ensures
        genesis_matches(
            g,
            authority_bytes(initial_authorities@),
            root_key.bytes@,
            account_bytes(endowed_accounts@),
        ),
{
    let mut balances: Vec<(AccountId, Balance)> = Vec::new();
    let n = endowed_accounts.len();
    for i in 0..n
        invariant
            n == endowed_accounts@.len(),
            balances@.len() == i,
            forall|j: int|
                0 <= j < i ==> {
                    &&& (#[trigger] balances@[j]).0.bytes@ == endowed_accounts@[j].bytes@
                    &&& balances@[j].1 == endowment()
                },
    {
        let acc = endowed_accounts[i];
        balances.push((acc, 1_000 * LOST));
    }
    let mut aura: Vec<PublicKey> = Vec::new();
    let mut grandpa: Vec<(PublicKey, u64)> = Vec::new();
    let m = initial_authorities.len();
    for i in 0..m
        invariant
            m == initial_authorities@.len(),
            aura@.len() == i,
            grandpa@.len() == i,
            forall|j: int|
                0 <= j < i ==> (#[trigger] aura@[j]).bytes@ == initial_authorities@[j].0.bytes@,
            forall|j: int|
                0 <= j < i ==> {
                    &&& (#[trigger] grandpa@[j]).0.bytes@ == initial_authorities@[j].1.bytes@
                    &&& grandpa@[j].1 == 1
                },
    {
        let keys = initial_authorities[i];
        aura.push(keys.0);
        grandpa.push((keys.1, 1));
    }
    GenesisPatch {
        balances,
        aura_authorities: aura,
        grandpa_authorities: grandpa,
        sudo_key: Some(root_key),
    }
}

/// The Aura key of a development seed.
pub open spec fn aura_of(seed: Seq<char>) -> Seq<u8> {
    public_of_seed(KeyScheme::Sr25519, seed)->Some_0
}

/// The GRANDPA key of a development seed.
pub open spec fn grandpa_of(seed: Seq<char>) -> Seq<u8> {
    public_of_seed(KeyScheme::Ed25519, seed)->Some_0
}

/// Every key that the built-in chain specifications derive can be derived.
pub open spec fn dev_keys_derivable() -> bool {
    &&& seed_derivable(KeyScheme::Sr25519, "Alice"@)
    &&& seed_derivable(KeyScheme::Ed25519, "Alice"@)
    &&& seed_derivable(KeyScheme::Sr25519, "Bob"@)
    &&& seed_derivable(KeyScheme::Ed25519, "Bob"@)
    &&& seed_derivable(KeyScheme::Sr25519, "Charlie"@)
    &&& seed_derivable(KeyScheme::Sr25519, "Dave"@)
    &&& seed_derivable(KeyScheme::Sr25519, "Eve"@)
    &&& seed_derivable(KeyScheme::Sr25519, "Ferdie"@)
}

/// The development keys that the built-in chain specifications use, derived
/// from the seeds Alice, Bob, Charlie, Dave, Eve and Ferdie.
pub struct DevKeys {
    alice_authority: (PublicKey, PublicKey),
    bob_authority: (PublicKey, PublicKey),
    alice: AccountId,
    bob: AccountId,
    charlie: AccountId,
    dave: AccountId,
    eve: AccountId,
    ferdie: AccountId,
}

impl DevKeys {
    /// Each key is the one derived from its seed.
    #[verifier::type_invariant]
    closed spec fn derived(self) -> bool {
        &&& self.alice_authority.0.bytes@ == aura_of("Alice"@)
        &&& self.alice_authority.1.bytes@ == grandpa_of("Alice"@)
        &&& self.bob_authority.0.bytes@ == aura_of("Bob"@)
        &&& self.bob_authority.1.bytes@ == grandpa_of("Bob"@)
        &&& self.alice.bytes@ == account_of_seed("Alice"@)
        &&& self.bob.bytes@ == account_of_seed("Bob"@)
        &&& self.charlie.bytes@ == account_of_seed("Charlie"@)
        &&& self.dave.bytes@ == account_of_seed("Dave"@)
        &&& self.eve.bytes@ == account_of_seed("Eve"@)
        &&& self.ferdie.bytes@ == account_of_seed("Ferdie"@)
    }

    /// Derives the development keys, or `None` where one of them cannot be derived.
    pub fn derive() -> (r: Option<DevKeys>)
        ensures
            r is Some <==> dev_keys_derivable(),
    {
        if try_get_from_seed(KeyScheme::Sr25519, "Alice").is_none() || try_get_from_seed(
            KeyScheme::Ed25519,
            "Alice",
        ).is_none() || try_get_from_seed(KeyScheme::Sr25519, "Bob").is_none()
            || try_get_from_seed(KeyScheme::Ed25519, "Bob").is_none() || try_get_from_seed(
            KeyScheme::Sr25519,
            "Charlie",
        ).is_none() || try_get_from_seed(KeyScheme::Sr25519, "Dave").is_none()
            || try_get_from_seed(KeyScheme::Sr25519, "Eve").is_none() || try_get_from_seed(
            KeyScheme::Sr25519,
            "Ferdie",
        ).is_none() {
            return None;
        }
        Some(
            DevKeys {
                alice_authority: authority_keys_from_seed("Alice"),
                bob_authority: authority_keys_from_seed("Bob"),
                alice: get_account_id_from_seed("Alice"),
                bob: get_account_id_from_seed("Bob"),
                charlie: get_account_id_from_seed("Charlie"),
                dave: get_account_id_from_seed("Dave"),
                eve: get_account_id_from_seed("Eve"),
                ferdie: get_account_id_from_seed("Ferdie"),
            },
        )
    }
}

/// Token properties of the chain: symbol LOST with 18 decimals.
pub fn token_properties() -> (p: ChainProperties)
    ensures
        p.token_symbol@ == "LOST"@,
        p.token_decimals == 18,
{
    ChainProperties { token_symbol: String::from_str("LOST"), token_decimals: 18 }
}

/// What `development_config` and `local_devnet_config` answer when the runtime
/// code is missing.
pub open spec fn missing_wasm_message() -> Seq<char> {
    "Development wasm not available"@
}

/// `c` is the specification of the single-node development chain with runtime code `code`.
pub open spec fn is_development_spec(c: ChainSpecConfig, code: &[u8]) -> bool {
    &&& c.code == code
    &&& c.name@ == "Logos Development"@
    &&& c.id@ == "dev"@
    &&& c.chain_type == ChainType::Development
    &&& c.properties.token_symbol@ == "LOST"@
    &&& c.properties.token_decimals == 18
    &&& genesis_matches(
        c.genesis,
        seq![(aura_of("Alice"@), grandpa_of("Alice"@))],
        account_of_seed("Alice"@),
        seq![account_of_seed("Alice"@), account_of_seed("Bob"@)],
    )
}

/// `c` is the specification of the local development network with runtime code `code`.
pub open spec fn is_local_devnet_spec(c: ChainSpecConfig, code: &[u8]) -> bool {
    &&& c.code == code
    &&& c.name@ == "Logos Local Testnet"@
    &&& c.id@ == "local_testnet"@
    &&& c.chain_type == ChainType::Local
    &&& c.properties.token_symbol@ == "LOST"@
    &&& c.properties.token_decimals == 18
    &&& genesis_matches(
        c.genesis,
        seq![(aura_of("Alice"@), grandpa_of("Alice"@)), (aura_of("Bob"@), grandpa_of("Bob"@))],
        account_of_seed("Alice"@),
        seq![
            account_of_seed("Alice"@),
            account_of_seed("Bob"@),
            account_of_seed("Charlie"@),
            account_of_seed("Dave"@),
            account_of_seed("Eve"@),
            account_of_seed("Ferdie"@),
        ],
    )
}

/// The specification of the single-node development chain: Alice is the only
/// authority and the sudo account, Alice and Bob are endowed. Fails where the
/// runtime code is not available.
pub fn development_config<'a>(wasm_binary: Option<&'a [u8]>, keys: &DevKeys) -> (r: Result<
    ChainSpecConfig<'a>,
    String,
>)
    ensures
        wasm_binary is None <==> r is Err,
        r matches Err(e) ==> e@ == missing_wasm_message(),
        r matches Ok(c) ==> is_development_spec(c, wasm_binary->Some_0),
{
    proof {
        use_type_invariant(keys);
    }
    let code = match wasm_binary {
        Some(code) => code,
        None => {
            return Err(String::from_str("Development wasm not available"));
        },
    };
    let authorities = vec![keys.alice_authority];
    let endowed = vec![keys.alice, keys.bob];
    let genesis = dev_genesis(authorities, keys.alice, endowed, true);
    proof {
        assert(authority_bytes(authorities@) =~= seq![
            (aura_of("Alice"@), grandpa_of("Alice"@)),
        ]);
        assert(account_bytes(endowed@) =~= seq![
            account_of_seed("Alice"@),
            account_of_seed("Bob"@),
        ]);
    }
    Ok(
        ChainSpecConfig {
            code,
            name: String::from_str("Logos Development"),
            id: String::from_str("dev"),
            chain_type: ChainType::Development,
            properties: token_properties(),
            genesis,
        },
    )
}

/// The specification of the local development network: Alice and Bob are the
/// authorities, Alice is the sudo account, Alice, Bob, Charlie, Dave, Eve and
/// Ferdie are endowed. Fails where the runtime code is not available.
pub fn local_devnet_config<'a>(wasm_binary: Option<&'a [u8]>, keys: &DevKeys) -> (r: Result<
    ChainSpecConfig<'a>,
    String,
>)
    ensures
        wasm_binary is None <==> r is Err,
        r matches Err(e) ==> e@ == missing_wasm_message(),
        r matches Ok(c) ==> is_local_devnet_spec(c, wasm_binary->Some_0),
{
    proof {
        use_type_invariant(keys);
    }
    let code = match wasm_binary {
        Some(code) => code,
        None => {
            return Err(String::from_str("Development wasm not available"));
        },
    };
    let authorities = vec![keys.alice_authority, keys.bob_authority];
    let endowed = vec![keys.alice, keys.bob, keys.charlie, keys.dave, keys.eve, keys.ferdie];
    let genesis = dev_genesis(authorities, keys.alice, endowed, true);
    proof {
        assert(authority_bytes(authorities@) =~= seq![
            (aura_of("Alice"@), grandpa_of("Alice"@)),
            (aura_of("Bob"@), grandpa_of("Bob"@)),
        ]);
        assert(account_bytes(endowed@) =~= seq![
            account_of_seed("Alice"@),
            account_of_seed("Bob"@),
            account_of_seed("Charlie"@),
            account_of_seed("Dave"@),
            account_of_seed("Eve"@),
            account_of_seed("Ferdie"@),
        ]);
    }
    Ok(
        ChainSpecConfig {
            code,
            name: String::from_str("Logos Local Testnet"),
            id: String::from_str("local_testnet"),
            chain_type: ChainType::Local,
            properties: token_properties(),
            genesis,
        },
    )
}

} // verus!
