//! Which parts of the node service are started, and how they are configured,
//! for a given node configuration.

use vstd::prelude::*;

verus! {

/// Minimum period of blocks on which GRANDPA justifications are imported and generated.
pub const GRANDPA_JUSTIFICATION_PERIOD: u32 = 512;

/// Interval for gossiping GRANDPA messages, in milliseconds.
pub const GRANDPA_GOSSIP_DURATION_MS: u64 = 333;

/// Size of the buffer of the telemetry worker.
pub const TELEMETRY_BUFFER_SIZE: usize = 16;

/// What the service reads of the node configuration.
pub struct NodeConfig {
    /// Where telemetry endpoints are configured, whether their list is empty.
    pub telemetry_endpoints_empty: Option<bool>,
    /// Whether the node is an authority (a validator).
    pub is_authority: bool,
    /// Whether offchain workers are enabled.
    pub offchain_worker_enabled: bool,
    /// Whether GRANDPA is disabled.
    pub disable_grandpa: bool,
    /// Whether blocks are authored even without being elected.
    pub force_authoring: bool,
    /// Name of the node in the network.
    pub node_name: String,
}

/// How the partial components of the service are set up.
pub struct PartialPlan {
    /// Buffer size of the telemetry worker, where one is started.
    pub telemetry_worker: Option<usize>,
    /// Whether the transaction pool runs as a validator's.
    pub pool_is_validator: bool,
    /// Justification period of the GRANDPA block import.
    pub grandpa_justification_period: u32,
}

/// How the offchain workers are set up.
pub struct OffchainPlan {
    pub is_validator: bool,
    pub with_keystore: bool,
    pub enable_http_requests: bool,
}

/// How Aura block authoring is set up.
pub struct AuraPlan {
    pub force_authoring: bool,
    /// Whether authoring backs off after missed slots.
    pub backoff_authoring_blocks: bool,
    /// Whether a maximum slot portion for block proposals is set.
    pub max_block_proposal_slot_portion: bool,
}

/// How the GRANDPA voter is set up.
pub struct GrandpaPlan {
    pub gossip_duration_ms: u64,
    pub justification_generation_period: u32,
    pub name: String,
    pub observer_enabled: bool,
    pub with_keystore: bool,
}

/// How the full service is set up: which tasks run, and with which settings.
pub struct FullPlan {
    pub partial: PartialPlan,
    pub offchain_workers: Option<OffchainPlan>,
    pub aura: Option<AuraPlan>,
    pub grandpa: Option<GrandpaPlan>,
}

/// Telemetry runs where endpoints are configured and their list is not empty.
pub open spec fn telemetry_enabled(config: NodeConfig) -> bool {
    config.telemetry_endpoints_empty == Some(false)
}

/// `p` is the partial plan for `config`.
pub open spec fn is_partial_plan(config: NodeConfig, p: PartialPlan) -> bool {
    &&& (p.telemetry_worker is Some <==> telemetry_enabled(config))
    &&& (p.telemetry_worker matches Some(n) ==> n == TELEMETRY_BUFFER_SIZE)
    &&& p.pool_is_validator == config.is_authority
    &&& p.grandpa_justification_period == GRANDPA_JUSTIFICATION_PERIOD
}

/// How the partial components are set up for `config`.
pub fn new_partial_plan(config: &NodeConfig) -> (p: PartialPlan)
    ensures
        is_partial_plan(*config, p),
{
    let telemetry_worker = match config.telemetry_endpoints_empty {
        Some(false) => Some(TELEMETRY_BUFFER_SIZE),
        _ => None,
    };
    PartialPlan {
        telemetry_worker,
        pool_is_validator: config.is_authority,
        grandpa_justification_period: GRANDPA_JUSTIFICATION_PERIOD,
    }
}

/// How the full service is set up for `config`: offchain workers run where they
/// are enabled, Aura authors blocks only on authorities, and the GRANDPA voter
/// runs unless disabled, with the keystore only on authorities.
pub fn new_full_plan(config: &NodeConfig) -> (p: FullPlan)
    ensures
        is_partial_plan(*config, p.partial),
        p.offchain_workers is Some <==> config.offchain_worker_enabled,
        p.offchain_workers matches Some(o) ==> {
            &&& o.is_validator == config.is_authority
            &&& o.with_keystore
            &&& o.enable_http_requests
        },
        p.aura is Some <==> config.is_authority,
        p.aura matches Some(a) ==> {
            &&& a.force_authoring == config.force_authoring
            &&& !a.backoff_authoring_blocks
            &&& !a.max_block_proposal_slot_portion
        },
        p.grandpa is Some <==> !config.disable_grandpa,
        p.grandpa matches Some(g) ==> {
            &&& g.gossip_duration_ms == GRANDPA_GOSSIP_DURATION_MS
            &&& g.justification_generation_period == GRANDPA_JUSTIFICATION_PERIOD
            &&& g.name@ == config.node_name@
            &&& !g.observer_enabled
            &&& g.with_keystore == config.is_authority
        },
{
    let partial = new_partial_plan(config);
    let offchain_workers = if config.offchain_worker_enabled {
        Some(
            OffchainPlan {
                is_validator: config.is_authority,
                with_keystore: true,
                enable_http_requests: true,
            },
        )
    } else {
        None
    };
    let aura = if config.is_authority {
        Some(
            AuraPlan {
                force_authoring: config.force_authoring,
                backoff_authoring_blocks: false,
                max_block_proposal_slot_portion: false,
            },
        )
    } else {
        None
    };
    let grandpa = if !config.disable_grandpa {
        Some(
            GrandpaPlan {
                gossip_duration_ms: GRANDPA_GOSSIP_DURATION_MS,
                justification_generation_period: GRANDPA_JUSTIFICATION_PERIOD,
                name: config.node_name.clone(),
                observer_enabled: false,
                with_keystore: config.is_authority,
            },
        )
    } else {
        None
    };
    FullPlan { partial, offchain_workers, aura, grandpa }
}

} // verus!
