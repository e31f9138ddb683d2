use logos_dev::service::{new_full_plan, new_partial_plan, NodeConfig};

fn config(telemetry: Option<bool>, authority: bool, offchain: bool, disable_grandpa: bool) -> NodeConfig {
    NodeConfig {
        telemetry_endpoints_empty: telemetry,
        is_authority: authority,
        offchain_worker_enabled: offchain,
        disable_grandpa,
        force_authoring: true,
        node_name: "node-1".to_string(),
    }
}

#[test]
fn telemetry_only_with_endpoints() {
    assert_eq!(new_partial_plan(&config(None, false, false, false)).telemetry_worker, None);
    assert_eq!(new_partial_plan(&config(Some(true), false, false, false)).telemetry_worker, None);
    assert_eq!(new_partial_plan(&config(Some(false), false, false, false)).telemetry_worker, Some(16));
}

#[test]
fn partial_plan_of_an_authority() {
    let p = new_partial_plan(&config(None, true, false, false));
    assert!(p.pool_is_validator);
    assert_eq!(p.grandpa_justification_period, 512);
    assert!(!new_partial_plan(&config(None, false, false, false)).pool_is_validator);
}

#[test]
fn authority_authors_and_votes_with_keystore() {
    let p = new_full_plan(&config(Some(false), true, true, false));
    let aura = p.aura.unwrap();
    assert!(aura.force_authoring);
    assert!(!aura.backoff_authoring_blocks);
    let g = p.grandpa.unwrap();
    assert!(g.with_keystore);
    assert_eq!(g.gossip_duration_ms, 333);
    assert_eq!(g.justification_generation_period, 512);
    assert_eq!(g.name, "node-1");
    assert!(!g.observer_enabled);
    let o = p.offchain_workers.unwrap();
    assert!(o.is_validator && o.with_keystore && o.enable_http_requests);
}

#[test]
fn full_node_votes_without_keystore_and_does_not_author() {
    let p = new_full_plan(&config(None, false, false, false));
    assert!(p.aura.is_none());
    assert!(p.offchain_workers.is_none());
    assert!(!p.grandpa.unwrap().with_keystore);
}

#[test]
fn disabled_grandpa_is_not_started() {
    let p = new_full_plan(&config(None, true, false, true));
    assert!(p.grandpa.is_none());
    assert!(p.aura.is_some());
}
