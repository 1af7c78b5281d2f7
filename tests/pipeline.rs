use node_service::config::{
    client_config, database_settings, executor_settings, session_key_seeds, Configuration,
    KeystoreConfig, OffchainWorkerConfig, PrometheusConfig, PruningMode, Role,
    TelemetryEndpoint, WasmExecutionMethod,
};
use node_service::pipeline::{
    build, full_node_steps, full_service_params, light_node_steps, light_service_params,
    new_full_client, new_full_parts, new_light_parts, ops_steps, service_steps, Assembly, Error,
    Family, Outcome, Phase, ServiceParams, ServiceTask, Shape, Step, Warning,
};
use node_service::tasks::{Resource, TaskKind};

fn config() -> Configuration {
    Configuration {
        role: Role::Full,
        keystore: KeystoreConfig::Path { path: "/keys".to_string(), password: None },
        database_path: "/db".to_string(),
        state_cache_size: 4096,
        state_cache_child_ratio: Some(20),
        pruning: PruningMode::KeepBlocks(256),
        wasm_method: WasmExecutionMethod::Compiled,
        default_heap_pages: Some(64),
        max_runtime_instances: 8,
        offchain_worker: OffchainWorkerConfig { enabled: false, indexing_enabled: false },
        prometheus_config: None,
        telemetry_endpoints: None,
        tracing_targets: None,
        dev_key_seed: None,
        node_name: "alice".to_string(),
        impl_name: "node".to_string(),
        impl_version: "1.0".to_string(),
        chain_name: "dev".to_string(),
        protocol_id: Some("dot".to_string()),
        boot_nodes: vec![],
        announce_block: true,
        internal_rpc: false,
    }
}

fn params(config: Configuration, offchain_storage: bool) -> ServiceParams {
    ServiceParams {
        config,
        shape: Shape::Full,
        offchain_storage,
        on_demand: false,
        remote_blockchain: false,
        finality_proof_request_builder: false,
        finality_proof_provider: true,
        block_announce_validator_builder: false,
    }
}

fn warnings(steps: &[Step]) -> Vec<Warning> {
    steps
        .iter()
        .filter_map(|s| match s {
            Step::Warn(w) => Some(*w),
            _ => None,
        })
        .collect()
}

fn run_all_done(a: &mut Assembly) {
    while a.phase() == Phase::InProgress {
        a.advance(Outcome::Done);
    }
}

#[test]
fn derived_settings_follow_config() {
    let c = config();
    let db = database_settings(&c);
    assert_eq!(db.state_cache_size, 4096);
    assert_eq!(db.state_cache_child_ratio, Some((20, 100)));
    assert_eq!(db.pruning, PruningMode::KeepBlocks(256));
    assert_eq!(db.source, "/db");
    let mut c2 = config();
    c2.state_cache_child_ratio = None;
    assert_eq!(database_settings(&c2).state_cache_child_ratio, None);
    let cc = client_config(&c);
    assert!(!cc.offchain_worker_enabled);
    assert!(!cc.offchain_indexing_api);
    let ex = executor_settings(&c);
    assert_eq!(ex.wasm_method, WasmExecutionMethod::Compiled);
    assert_eq!(ex.default_heap_pages, Some(64));
    assert_eq!(ex.max_runtime_instances, 8);
}

#[test]
fn session_keys_come_from_dev_seed_only() {
    let mut c = config();
    assert!(session_key_seeds(&c).is_empty());
    c.dev_key_seed = Some("//Alice".to_string());
    assert_eq!(session_key_seeds(&c), vec!["//Alice".to_string()]);
}

#[test]
fn full_parts_open_keystore_first() {
    let steps = new_full_parts(&config());
    assert_eq!(steps.len(), 4);
    assert!(matches!(&steps[0], Step::OpenKeystore(KeystoreConfig::Path { path, .. }) if path == "/keys"));
    assert!(matches!(steps[1], Step::CreateTaskRegistry { with_metrics: false }));
    assert!(matches!(steps[2], Step::CreateExecutor(_)));
    assert!(matches!(&steps[3], Step::OpenFullBackend { database, .. } if database.source == "/db"));
    assert_eq!(new_full_client(&config()).len(), 4);
}

#[test]
fn light_parts_open_keystore_first() {
    let mut c = config();
    c.prometheus_config = Some(PrometheusConfig { port: 9615 });
    let steps = new_light_parts(&c);
    assert_eq!(steps.len(), 6);
    assert!(matches!(steps[0], Step::OpenKeystore(_)));
    assert!(matches!(steps[1], Step::CreateTaskRegistry { with_metrics: true }));
    assert!(matches!(steps[3], Step::OpenLightStorage(_)));
    assert!(matches!(steps[4], Step::CreateFetchVerifier));
    assert!(matches!(steps[5], Step::CreateLightClient { with_metrics: true }));
}

#[test]
fn builders_order_components_by_dependency() {
    let full = full_node_steps(&config());
    assert_eq!(full.len(), 10);
    let families: Vec<Family> = full[4..]
        .iter()
        .map(|s| match s {
            Step::Build(f, Shape::Full) => *f,
            _ => panic!("unexpected step"),
        })
        .collect();
    assert_eq!(
        families,
        vec![
            Family::TransactionPool,
            Family::SelectChain,
            Family::BlockImport,
            Family::ImportQueue,
            Family::FinalityProofProvider,
            Family::RpcExtensions,
        ]
    );
    let light = light_node_steps(&config());
    assert_eq!(light.len(), 11);
    assert!(matches!(light[7], Step::Build(Family::SelectChain, Shape::Light)));
    assert!(matches!(light[8], Step::Build(Family::BlockImport, Shape::Light)));
    let ops = ops_steps(&config());
    assert_eq!(ops.len(), 7);
    assert!(matches!(ops[6], Step::Build(Family::ImportQueue, Shape::Full)));
}

#[test]
fn offchain_enabled_without_storage_warns_once_and_completes() {
    let mut c = config();
    c.offchain_worker.enabled = true;
    let p = params(c, false);
    let steps = service_steps(&p);
    assert_eq!(warnings(&steps), vec![Warning::OffchainStorageMissing]);
    assert!(!steps.iter().any(|s| matches!(s, Step::StartOffchainWorkers)));
    assert!(!steps
        .iter()
        .any(|s| matches!(s, Step::Spawn(ServiceTask::OffchainNotifications))));
    let c = build::<u32>(p);
    let defaulted = c.default_protocol_id;
    let mut a = c.assembly;
    assert!(!defaulted);
    run_all_done(&mut a);
    assert_eq!(a.phase(), Phase::Completed);
    assert!(!a.features().offchain_workers);
}

#[test]
fn offchain_with_storage_starts_workers() {
    let mut c = config();
    c.offchain_worker.enabled = true;
    let mut a = build::<u32>(params(c, true)).assembly;
    assert!(warnings(a.steps()).is_empty());
    run_all_done(&mut a);
    assert!(a.features().offchain_workers);
    assert!(a.registry().is_running());
    let names: Vec<String> =
        (0..a.registry().task_count()).map(|i| a.registry().task(i).name.clone()).collect();
    assert!(names.contains(&"offchain-notifications".to_string()));
}

#[test]
fn missing_protocol_id_warns() {
    let mut c = config();
    c.protocol_id = None;
    let p = params(c, false);
    let steps = service_steps(&p);
    assert_eq!(warnings(&steps), vec![Warning::DefaultProtocolId]);
    let c = build::<u32>(p);
    let (plan, defaulted) = (c.network, c.default_protocol_id);
    assert!(defaulted);
    assert_eq!(plan.protocol_id, "sup");
}

#[test]
fn network_worker_is_the_first_task_and_runs_blocking() {
    let mut a = build::<u32>(params(config(), false)).assembly;
    run_all_done(&mut a);
    assert_eq!(a.registry().task(0).name, "network-worker");
    assert_eq!(a.registry().task(0).kind, TaskKind::Blocking);
    let names: Vec<String> =
        (0..a.registry().task_count()).map(|i| a.registry().task(i).name.clone()).collect();
    assert_eq!(
        names,
        vec![
            "network-worker",
            "txpool-notifications",
            "on-transaction-imported",
            "telemetry-periodic-send",
            "telemetry-periodic-network-state",
            "informant",
        ]
    );
    for i in 1..a.registry().task_count() {
        assert_eq!(a.registry().task(i).kind, TaskKind::Cooperative);
    }
    assert_eq!(a.registry().keep_alive_count(), 2);
}

#[test]
fn every_optional_service_is_started_when_configured() {
    let mut c = config();
    c.prometheus_config = Some(PrometheusConfig { port: 9615 });
    c.telemetry_endpoints = Some(vec![TelemetryEndpoint { url: "wss://t".to_string(), verbosity: 0 }]);
    c.tracing_targets = Some("sync".to_string());
    c.internal_rpc = true;
    let c = build::<u32>(params(c, false));
    let plan = c.network;
    let mut a = c.assembly;
    assert!(plan.with_metrics);
    assert!(a.steps().iter().any(|s| matches!(s, Step::StartMetrics(9615))));
    run_all_done(&mut a);
    let f = a.features();
    assert!(f.metrics && f.telemetry && f.tracing && f.internal_rpc && f.rpc_servers);
    let names: Vec<String> =
        (0..a.registry().task_count()).map(|i| a.registry().task(i).name.clone()).collect();
    assert!(names.contains(&"prometheus-endpoint".to_string()));
    assert!(names.contains(&"telemetry-worker".to_string()));
    assert_eq!(a.registry().keep_alive_count(), 4);
}

#[test]
fn early_failure_aborts_and_leaves_nothing_running() {
    let mut a = build::<u32>(params(config(), false)).assembly;
    a.advance(Outcome::Done);
    assert!(matches!(a.current(), Step::BuildNetwork));
    a.advance(Outcome::Failed(Error::Network));
    assert_eq!(a.phase(), Phase::Aborted(Error::Network));
    assert!(!a.registry().is_running());
    assert_eq!(a.registry().task_count(), 0);
}

#[test]
fn late_failure_is_logged_and_assembly_goes_on() {
    let mut c = config();
    c.telemetry_endpoints = Some(vec![]);
    let mut a = build::<u32>(params(c, false)).assembly;
    while a.phase() == Phase::InProgress {
        let outcome = match a.current() {
            Step::InitTelemetry => Outcome::Failed(Error::Telemetry),
            Step::StartRpcServers => Outcome::Failed(Error::Rpc),
            _ => Outcome::Done,
        };
        a.advance(outcome);
    }
    assert_eq!(a.phase(), Phase::Completed);
    assert_eq!(a.degraded().len(), 2);
    assert_eq!(a.degraded()[0].error, Error::Rpc);
    assert_eq!(a.degraded()[1].error, Error::Telemetry);
    assert!(!a.features().telemetry);
    assert!(!a.features().rpc_servers);
    assert_eq!(a.registry().keep_alive_count(), 1);
}

#[test]
fn parts_failure_aborts() {
    let mut a = Assembly::new(new_full_parts(&config()));
    a.advance(Outcome::Failed(Error::Keystore));
    assert_eq!(a.phase(), Phase::Aborted(Error::Keystore));
    let empty = Assembly::new(vec![]);
    assert_eq!(empty.phase(), Phase::Completed);
}

#[test]
fn keep_alive_holds_base_path_and_started_servers() {
    let mut a = build::<u32>(params(config(), false)).assembly;
    run_all_done(&mut a);
    let shutdown = a.shutdown();
    assert_eq!(shutdown.released, vec![Resource::BasePath, Resource::RpcServers]);
}

#[test]
fn builders_hand_over_the_handles_of_their_shape() {
    let full = full_service_params(config(), true);
    assert_eq!(full.shape, Shape::Full);
    assert!(full.offchain_storage);
    assert!(!full.on_demand && !full.remote_blockchain && !full.finality_proof_request_builder);
    assert!(full.finality_proof_provider);
    let light = light_service_params(config(), false);
    assert_eq!(light.shape, Shape::Light);
    assert!(light.on_demand && light.remote_blockchain && light.finality_proof_request_builder);
    assert!(!light.block_announce_validator_builder);
    let plan = build::<u32>(light).network;
    assert!(plan.with_on_demand && plan.with_finality_proof_request_builder);
}

#[test]
fn build_starts_with_one_status_registry_and_dev_seed() {
    let mut c = config();
    c.dev_key_seed = Some("//Alice".to_string());
    let comps = build::<u32>(params(c, false));
    assert_eq!(comps.network_status_sinks.len(), 3);
    assert!(matches!(&comps.assembly.steps()[0], Step::GenerateSessionKeys(Some(s)) if s == "//Alice"));
    assert_eq!(comps.assembly.degraded().len(), 0);
    assert_eq!(comps.assembly.registry().keep_alive_count(), 0);
    let mut sinks = comps.network_status_sinks;
    let mut receivers = comps.status_receivers;
    let report = sinks.update_at(5000, &1);
    assert_eq!(report.delivered, vec![true, false, true]);
    assert_eq!(receivers.telemetry.try_next().unwrap(), Some(1));
    assert_eq!(receivers.informant.try_next().unwrap(), Some(1));
    assert!(receivers.network_state.try_next().is_err());
    let none = build::<u32>(params(config(), false));
    assert!(matches!(none.assembly.steps()[0], Step::GenerateSessionKeys(None)));
}

#[test]
fn full_client_step_keeps_canonicalization_delay() {
    let steps = new_full_parts(&config());
    assert!(matches!(steps[3], Step::OpenFullBackend { canonicalization_delay: 4096, .. }));
}

#[test]
fn shutdown_during_assembly_stops_it() {
    let mut a = build::<u32>(params(config(), false)).assembly;
    a.advance(Outcome::Done);
    let r = a.shutdown();
    assert_eq!(a.phase(), Phase::Aborted(Error::Shutdown));
    assert!(r.cancelled.is_empty());
    assert!(!a.registry().is_running());
}
