use node_service::config::{
    Configuration, KeystoreConfig, OffchainWorkerConfig, PruningMode, Role, WasmExecutionMethod,
};
use node_service::network::{
    network_plan, notify_connected, retain_reachable, on_transaction_imported, resolve_protocol_id,
    system_connected, transaction_notifications, AnnounceValidator, BridgeAction, NetworkInputs,
    DEFAULT_PROTOCOL_ID,
};
use sp_utils::mpsc::tracing_unbounded;

fn config(role: Role) -> Configuration {
    Configuration {
        role,
        keystore: KeystoreConfig::InMemory,
        database_path: "/tmp/db".to_string(),
        state_cache_size: 1024,
        state_cache_child_ratio: None,
        pruning: PruningMode::ArchiveAll,
        wasm_method: WasmExecutionMethod::Interpreted,
        default_heap_pages: None,
        max_runtime_instances: 8,
        offchain_worker: OffchainWorkerConfig { enabled: false, indexing_enabled: false },
        prometheus_config: None,
        telemetry_endpoints: None,
        tracing_targets: None,
        dev_key_seed: None,
        node_name: "alice".to_string(),
        impl_name: "node".to_string(),
        impl_version: "1.0".to_string(),
        chain_name: "dev".to_string(),
        protocol_id: Some("dot".to_string()),
        boot_nodes: vec![],
        announce_block: true,
        internal_rpc: true,
    }
}

fn inputs() -> NetworkInputs {
    NetworkInputs {
        custom_block_announce_validator: false,
        with_on_demand: false,
        with_finality_proof_provider: true,
        with_finality_proof_request_builder: false,
    }
}

#[test]
fn protocol_id_defaults_when_chain_spec_has_none() {
    let (id, defaulted) = resolve_protocol_id(&None);
    assert_eq!(id, DEFAULT_PROTOCOL_ID);
    assert_eq!(id, "sup");
    assert!(defaulted);
    let (id, defaulted) = resolve_protocol_id(&Some("dot".to_string()));
    assert_eq!(id, "dot");
    assert!(!defaulted);
}

#[test]
fn light_node_does_not_import_external_transactions() {
    let (plan, _) = network_plan(&config(Role::Light), inputs());
    assert!(!plan.imports_external_transactions);
    let (plan, _) = network_plan(&config(Role::Full), inputs());
    assert!(plan.imports_external_transactions);
    let (plan, _) = network_plan(&config(Role::Authority), inputs());
    assert!(plan.imports_external_transactions);
}

#[test]
fn network_plan_takes_validator_bootnodes_and_protocol() {
    let mut c = config(Role::Full);
    c.boot_nodes = vec!["/ip4/127.0.0.1/tcp/30333".to_string()];
    c.protocol_id = None;
    let mut i = inputs();
    i.custom_block_announce_validator = true;
    let (plan, defaulted) = network_plan(&c, i);
    assert!(defaulted);
    assert_eq!(plan.protocol_id, "sup");
    assert_eq!(plan.block_announce_validator, AnnounceValidator::Custom);
    assert!(plan.has_bootnodes);
    assert!(plan.announce_block);
    assert!(!plan.with_metrics);
    assert!(plan.with_finality_proof_provider);
    let (plan, _) = network_plan(&config(Role::Full), inputs());
    assert_eq!(plan.block_announce_validator, AnnounceValidator::Default);
    assert!(!plan.has_bootnodes);
}

#[test]
fn bridge_propagates_each_ready_hash_once_in_order() {
    let h1 = [1u8; 32];
    let h2 = [2u8; 32];
    let actions = transaction_notifications(&vec![h1, h2]);
    assert_eq!(
        actions,
        vec![
            BridgeAction::Propagate(h1),
            BridgeAction::ReportPoolStatus,
            BridgeAction::Propagate(h2),
            BridgeAction::ReportPoolStatus,
        ]
    );
    let propagated: Vec<[u8; 32]> = actions
        .iter()
        .filter_map(|a| match a {
            BridgeAction::Propagate(h) => Some(*h),
            BridgeAction::ReportPoolStatus => None,
        })
        .collect();
    assert_eq!(propagated, vec![h1, h2]);
}

#[test]
fn bridge_single_notification_and_empty_stream() {
    let h = [9u8; 32];
    assert_eq!(
        on_transaction_imported(h),
        vec![BridgeAction::Propagate(h), BridgeAction::ReportPoolStatus]
    );
    assert!(transaction_notifications(&vec![]).is_empty());
}

#[test]
fn connection_record_defaults_missing_values() {
    let c = config(Role::Authority);
    let record = system_connected(&c, None, None, "peer".to_string());
    assert_eq!(record.genesis_hash, [0u8; 32]);
    assert_eq!(record.startup_time, 0);
    assert!(record.authority);
    assert_eq!(record.name, "alice");
    assert_eq!(record.implementation, "node");
    assert_eq!(record.version, "1.0");
    assert_eq!(record.chain, "dev");
    assert_eq!(record.config, "");
    assert_eq!(record.network_id, "peer");
    let record = system_connected(&config(Role::Full), Some([7u8; 32]), Some(1234), "p".to_string());
    assert_eq!(record.genesis_hash, [7u8; 32]);
    assert_eq!(record.startup_time, 1234);
    assert!(!record.authority);
}

#[test]
fn connected_notification_keeps_open_sinks_only() {
    let (tx1, mut rx1) = tracing_unbounded("c1");
    let (tx2, rx2) = tracing_unbounded("c2");
    let (tx3, mut rx3) = tracing_unbounded("c3");
    drop(rx2);
    let mut sinks = vec![tx1, tx2, tx3];
    let kept = notify_connected(&mut sinks);
    assert_eq!(kept, vec![true, false, true]);
    assert_eq!(sinks.len(), 2);
    assert_eq!(rx1.try_next().unwrap(), Some(()));
    assert_eq!(rx3.try_next().unwrap(), Some(()));
}

#[test]
fn retention_follows_send_results() {
    let (tx1, _rx1) = tracing_unbounded("r1");
    let (tx2, _rx2) = tracing_unbounded("r2");
    let (tx3, _rx3) = tracing_unbounded("r3");
    let mut sinks = vec![tx1, tx2, tx3];
    retain_reachable(&mut sinks, &vec![false, true, false]);
    assert_eq!(sinks.len(), 1);
}
