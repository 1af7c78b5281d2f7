//! The node-assembly pipeline: the steps that build a full or light node in
//! dependency order, and the state machine that runs them, aborting on an
//! early failure and degrading gracefully once tasks are running.
use crate::config::{
    client_config, database_settings, executor_settings, spec_client_config,
    spec_database_settings, spec_executor_settings, ClientConfig, Configuration, DatabaseSettings,
    ExecutorSettings, KeystoreConfig,
};
use crate::network::{
    network_plan, network_status_sinks, spec_network_plan, spec_protocol_id,
    spec_standing_subscriptions, NetworkInputs, NetworkPlan, StatusReceivers,
};
use crate::status_sinks::StatusSinks;
use crate::tasks::{Resource, Shutdown, TaskKind, TaskRegistry};
use vstd::prelude::*;

verus! {

/// The deployment shape of a node.
#[derive(Clone, Copy, PartialEq, Eq, Debug)]
pub enum Shape {
    Full,
    Light,
}

/// A pluggable capability family.
#[derive(Clone, Copy, PartialEq, Eq, Debug)]
pub enum Family {
    TransactionPool,
    SelectChain,
    BlockImport,
    ImportQueue,
    FinalityProofProvider,
    RpcExtensions,
}

/// A long-running task the service starts.
#[derive(Clone, Copy, PartialEq, Eq, Debug)]
pub enum ServiceTask {
    NetworkWorker,
    TxpoolNotifications,
    OffchainNotifications,
    OnTransactionImported,
    PrometheusEndpoint,
    TelemetryPeriodicSend,
    TelemetryPeriodicNetworkState,
    TelemetryWorker,
    Informant,
}

pub open spec fn spec_task_name(t: ServiceTask) -> Seq<char> {
    match t {
        ServiceTask::NetworkWorker => "network-worker"@,
        ServiceTask::TxpoolNotifications => "txpool-notifications"@,
        ServiceTask::OffchainNotifications => "offchain-notifications"@,
        ServiceTask::OnTransactionImported => "on-transaction-imported"@,
        ServiceTask::PrometheusEndpoint => "prometheus-endpoint"@,
        ServiceTask::TelemetryPeriodicSend => "telemetry-periodic-send"@,
        ServiceTask::TelemetryPeriodicNetworkState => "telemetry-periodic-network-state"@,
        ServiceTask::TelemetryWorker => "telemetry-worker"@,
        ServiceTask::Informant => "informant"@,
    }
}

/// The network worker's queue processing can hold a worker for a long
/// time, so it runs in isolation; every other task is cooperative.
pub open spec fn spec_task_kind(t: ServiceTask) -> TaskKind {
    match t {
        ServiceTask::NetworkWorker => TaskKind::Blocking,
        _ => TaskKind::Cooperative,
    }
}

impl ServiceTask {
    /// The task's name, for diagnostics.
    pub fn name(&self) -> (r: String)
        ensures
            r@ == spec_task_name(*self),
    {
        match self {
            ServiceTask::NetworkWorker => String::from_str("network-worker"),
            ServiceTask::TxpoolNotifications => String::from_str("txpool-notifications"),
            ServiceTask::OffchainNotifications => String::from_str("offchain-notifications"),
            ServiceTask::OnTransactionImported => String::from_str("on-transaction-imported"),
            ServiceTask::PrometheusEndpoint => String::from_str("prometheus-endpoint"),
            ServiceTask::TelemetryPeriodicSend => String::from_str("telemetry-periodic-send"),
            ServiceTask::TelemetryPeriodicNetworkState => String::from_str(
                "telemetry-periodic-network-state",
            ),
            ServiceTask::TelemetryWorker => String::from_str("telemetry-worker"),
            ServiceTask::Informant => String::from_str("informant"),
        }
    }

    /// How the task is scheduled.
    pub fn kind(&self) -> (r: TaskKind)
        ensures
            r == spec_task_kind(*self),
    {
        match self {
            ServiceTask::NetworkWorker => TaskKind::Blocking,
            _ => TaskKind::Cooperative,
        }
    }
}

/// A condition that lets assembly go on with a fallback.
#[derive(Clone, Copy, PartialEq, Eq, Debug)]
pub enum Warning {
    /// Offchain workers were asked for, but the backend has no offchain storage.
    OffchainStorageMissing,
    /// The chain spec names no protocol identifier; the default is used.
    DefaultProtocolId,
}

/// One step of assembly, performed by whoever runs the pipeline.
#[derive(Clone, Debug)]
pub enum Step {
    OpenKeystore(KeystoreConfig),
    CreateTaskRegistry { with_metrics: bool },
    CreateExecutor(ExecutorSettings),
    /// Open the database and build the client on it.
    /// The database keeps non-canonical state for `canonicalization_delay`
    /// blocks; the client and its call executor share the one backend.
    OpenFullBackend {
        database: DatabaseSettings,
        canonicalization_delay: u64,
        client: ClientConfig,
        with_metrics: bool,
    },
    OpenLightStorage(DatabaseSettings),
    CreateFetchVerifier,
    CreateLightClient { with_metrics: bool },
    /// Build the given family's implementation for the given shape.
    Build(Family, Shape),
    /// Generate the initial session keys at the best block, from the dev key
    /// seed when one is configured and from no seed otherwise.
    GenerateSessionKeys(Option<String>),
    BuildNetwork,
    Spawn(ServiceTask),
    StartOffchainWorkers,
    /// Build the metrics service and start its exporter on this port.
    StartMetrics(u16),
    StartRpcServers,
    /// Build the handler with unsafe methods allowed, for internal callers.
    BuildInternalRpc,
    /// Connect to the telemetry endpoints and start the telemetry worker.
    InitTelemetry,
    InstallTracing,
    KeepAlive,
    Warn(Warning),
}

/// A failure that stops assembly before any task runs: the node is not built.
pub open spec fn is_fatal(s: Step) -> bool {
    match s {
        Step::OpenKeystore(_) | Step::CreateTaskRegistry { .. } | Step::CreateExecutor(_)
        | Step::OpenFullBackend { .. } | Step::OpenLightStorage(_) | Step::CreateFetchVerifier
        | Step::CreateLightClient { .. } | Step::Build(_, _) | Step::GenerateSessionKeys(_)
        | Step::BuildNetwork => true,
        _ => false,
    }
}

/// The task a step starts when it succeeds.
pub open spec fn started_task(s: Step) -> Option<ServiceTask> {
    match s {
        Step::Spawn(t) => Some(t),
        Step::StartMetrics(_) => Some(ServiceTask::PrometheusEndpoint),
        Step::InitTelemetry => Some(ServiceTask::TelemetryWorker),
        _ => None,
    }
}

/// The number of warnings among `s`.
pub open spec fn warnings(s: Seq<Step>) -> nat
    decreases s.len(),
{
    if s.len() == 0 {
        0
    } else {
        warnings(s.drop_last()) + if s.last() is Warn {
            1nat
        } else {
            0nat
        }
    }
}

pub open spec fn spec_full_parts(c: Configuration) -> Seq<Step> {
    seq![
        Step::OpenKeystore(c.keystore),
        Step::CreateTaskRegistry { with_metrics: c.prometheus_config.is_some() },
        Step::CreateExecutor(spec_executor_settings(c)),
        spec_client_step(spec_database_settings(c), spec_client_config(c), c.prometheus_config.is_some()),
    ]
}

/// How many blocks the database keeps non-canonical state for.
pub const CANONICALIZATION_DELAY: u64 = 4096;

pub open spec fn spec_client_step(database: DatabaseSettings, client: ClientConfig, with_metrics: bool) -> Step {
    Step::OpenFullBackend {
        database,
        canonicalization_delay: CANONICALIZATION_DELAY,
        client,
        with_metrics,
    }
}

/// The step that opens a database-backed client with these settings.
pub fn new_client(database: DatabaseSettings, client: ClientConfig, with_metrics: bool) -> (r: Step)
    ensures
        r == spec_client_step(database, client, with_metrics),
{
    Step::OpenFullBackend {
        database,
        canonicalization_delay: CANONICALIZATION_DELAY,
        client,
        with_metrics,
    }
}

/// The first steps of a full node: keystore (on disk or in memory), task
/// registry, executor, then database and client.
pub fn new_full_parts(config: &Configuration) -> (r: Vec<Step>)
    ensures
        r@ == spec_full_parts(*config),
{
    let with_metrics = config.prometheus_config.is_some();
    let mut r: Vec<Step> = Vec::new();
    r.push(Step::OpenKeystore(config.keystore.duplicate()));
    r.push(Step::CreateTaskRegistry { with_metrics });
    r.push(Step::CreateExecutor(executor_settings(config)));
    r.push(new_client(database_settings(config), client_config(config), with_metrics));
    proof {
        assert(r@ =~= spec_full_parts(*config));
    }
    r
}

/// The steps that yield a full client.
pub fn new_full_client(config: &Configuration) -> (r: Vec<Step>)
    ensures
        r@ == spec_full_parts(*config),
{
    new_full_parts(config)
}

pub open spec fn spec_light_parts(c: Configuration) -> Seq<Step> {
    seq![
        Step::OpenKeystore(c.keystore),
        Step::CreateTaskRegistry { with_metrics: c.prometheus_config.is_some() },
        Step::CreateExecutor(spec_executor_settings(c)),
        Step::OpenLightStorage(spec_database_settings(c)),
        Step::CreateFetchVerifier,
        Step::CreateLightClient { with_metrics: c.prometheus_config.is_some() },
    ]
}

/// The first steps of a light node: keystore, task registry, executor, light
/// storage, the remote-proof verifier over it, then the client.
pub fn new_light_parts(config: &Configuration) -> (r: Vec<Step>)
    ensures
        r@ == spec_light_parts(*config),
{
    let with_metrics = config.prometheus_config.is_some();
    let mut r: Vec<Step> = Vec::new();
    r.push(Step::OpenKeystore(config.keystore.duplicate()));
    r.push(Step::CreateTaskRegistry { with_metrics });
    r.push(Step::CreateExecutor(executor_settings(config)));
    r.push(Step::OpenLightStorage(database_settings(config)));
    r.push(Step::CreateFetchVerifier);
    r.push(Step::CreateLightClient { with_metrics });
    proof {
        assert(r@ =~= spec_light_parts(*config));
    }
    r
}

/// Everything the final wiring step needs, consumed once by `build`.
pub struct ServiceParams {
    pub config: Configuration,
    pub shape: Shape,
    /// The backend offers offchain key/value storage.
    pub offchain_storage: bool,
    pub on_demand: bool,
    pub remote_blockchain: bool,
    pub finality_proof_request_builder: bool,
    pub finality_proof_provider: bool,
    pub block_announce_validator_builder: bool,
}

pub open spec fn spec_network_inputs(p: ServiceParams) -> NetworkInputs {
    NetworkInputs {
        custom_block_announce_validator: p.block_announce_validator_builder,
        with_on_demand: p.on_demand,
        with_finality_proof_provider: p.finality_proof_provider,
        with_finality_proof_request_builder: p.finality_proof_request_builder,
    }
}

/// Whether offchain workers run: asked for, and storage to run them on.
pub open spec fn offchain_active(p: ServiceParams) -> bool {
    p.config.offchain_worker.enabled && p.offchain_storage
}

/// The steps up to the network worker's start; only these may fail fatally.
pub open spec fn spec_service_head(p: ServiceParams) -> Seq<Step> {
    seq![Step::GenerateSessionKeys(p.config.dev_key_seed)] + opt(
        p.config.protocol_id is None,
        Step::Warn(Warning::DefaultProtocolId),
    ) + seq![Step::BuildNetwork]
}

/// `seq![s]` when `cond` holds, else nothing.
pub open spec fn opt(cond: bool, s: Step) -> Seq<Step> {
    if cond {
        seq![s]
    } else {
        Seq::empty()
    }
}

/// Offchain workers start, or a warning says why they do not.
pub open spec fn offchain_segment(p: ServiceParams) -> Seq<Step> {
    if offchain_active(p) {
        seq![Step::StartOffchainWorkers]
    } else {
        opt(p.config.offchain_worker.enabled, Step::Warn(Warning::OffchainStorageMissing))
    }
}

pub open spec fn metrics_segment(c: Configuration) -> Seq<Step> {
    match c.prometheus_config {
        Some(m) => seq![Step::StartMetrics(m.port)],
        None => Seq::empty(),
    }
}

/// The steps after the offchain decision.
pub open spec fn spec_service_rest(p: ServiceParams) -> Seq<Step> {
    let c = p.config;
    seq![Step::Spawn(ServiceTask::TxpoolNotifications)] + opt(
        offchain_active(p),
        Step::Spawn(ServiceTask::OffchainNotifications),
    ) + seq![Step::Spawn(ServiceTask::OnTransactionImported)] + metrics_segment(c) + seq![
        Step::Spawn(ServiceTask::TelemetryPeriodicSend),
        Step::Spawn(ServiceTask::TelemetryPeriodicNetworkState),
        Step::StartRpcServers,
    ] + opt(c.internal_rpc, Step::BuildInternalRpc) + opt(
        c.telemetry_endpoints is Some,
        Step::InitTelemetry,
    ) + opt(c.tracing_targets is Some, Step::InstallTracing) + seq![
        Step::Spawn(ServiceTask::Informant),
        Step::KeepAlive,
    ]
}

/// The steps from the network worker's start on.
pub open spec fn spec_service_tail(p: ServiceParams) -> Seq<Step> {
    seq![Step::Spawn(ServiceTask::NetworkWorker)] + offchain_segment(p) + spec_service_rest(p)
}

pub open spec fn spec_service_steps(p: ServiceParams) -> Seq<Step> {
    spec_service_head(p) + spec_service_tail(p)
}

/// Appends `s`.
fn push_one(r: &mut Vec<Step>, s: Step)
    ensures
        final(r)@ == old(r)@ + seq![s],
{
    r.push(s);
    proof {
        assert(final(r)@ =~= old(r)@ + seq![s]);
    }
}

/// Appends `s` when `cond` holds.
fn push_if(r: &mut Vec<Step>, cond: bool, s: Step)
    ensures
        final(r)@ == old(r)@ + opt(cond, s),
{
    if cond {
        r.push(s);
    }
    proof {
        if cond {
            assert(final(r)@ =~= old(r)@ + seq![s]);
        } else {
            assert(final(r)@ =~= old(r)@ + Seq::<Step>::empty());
        }
    }
}

/// The steps that turn built parts into a running node, in order.
#[verifier::rlimit(40)]
pub fn service_steps(params: &ServiceParams) -> (r: Vec<Step>)
    ensures
        r@ == spec_service_steps(*params),
{
    let c = &params.config;
    let offchain = c.offchain_worker.enabled && params.offchain_storage;
    let mut r: Vec<Step> = Vec::new();
    let seed = match &c.dev_key_seed {
        Some(s) => Some(s.clone()),
        None => None,
    };
    push_one(&mut r, Step::GenerateSessionKeys(seed));
    push_if(&mut r, c.protocol_id.is_none(), Step::Warn(Warning::DefaultProtocolId));
    push_one(&mut r, Step::BuildNetwork);
    proof {
        assert(r@ =~= spec_service_head(*params));
    }
    let ghost head = r@;
    let mut t: Vec<Step> = Vec::new();
    push_one(&mut t, Step::Spawn(ServiceTask::NetworkWorker));
    let ghost before_offchain = t@;
    if offchain {
        push_one(&mut t, Step::StartOffchainWorkers);
    } else {
        push_if(&mut t, c.offchain_worker.enabled, Step::Warn(Warning::OffchainStorageMissing));
    }
    assert(t@ == before_offchain + offchain_segment(*params));
    let mut u: Vec<Step> = Vec::new();
    push_one(&mut u, Step::Spawn(ServiceTask::TxpoolNotifications));
    push_if(&mut u, offchain, Step::Spawn(ServiceTask::OffchainNotifications));
    push_one(&mut u, Step::Spawn(ServiceTask::OnTransactionImported));
    let ghost before_metrics = u@;
    match c.prometheus_config {
        Some(m) => push_one(&mut u, Step::StartMetrics(m.port)),
        None => {},
    }
    proof {
        if c.prometheus_config is None {
            assert(u@ =~= before_metrics + metrics_segment(*c));
        }
    }
    let ghost mid = u@;
    push_one(&mut u, Step::Spawn(ServiceTask::TelemetryPeriodicSend));
    push_one(&mut u, Step::Spawn(ServiceTask::TelemetryPeriodicNetworkState));
    push_one(&mut u, Step::StartRpcServers);
    proof {
        assert(u@ =~= mid + seq![
            Step::Spawn(ServiceTask::TelemetryPeriodicSend),
            Step::Spawn(ServiceTask::TelemetryPeriodicNetworkState),
            Step::StartRpcServers,
        ]);
    }
    push_if(&mut u, c.internal_rpc, Step::BuildInternalRpc);
    push_if(&mut u, c.telemetry_endpoints.is_some(), Step::InitTelemetry);
    push_if(&mut u, c.tracing_targets.is_some(), Step::InstallTracing);
    let ghost mid2 = u@;
    push_one(&mut u, Step::Spawn(ServiceTask::Informant));
    push_one(&mut u, Step::KeepAlive);
    proof {
        assert(u@ =~= mid2 + seq![Step::Spawn(ServiceTask::Informant), Step::KeepAlive]);
        assert(u@ == spec_service_rest(*params));
    }
    t.append(&mut u);
    r.append(&mut t);
    r
}

pub open spec fn spec_full_components(with_rpc: bool) -> Seq<Step> {
    seq![
        Step::Build(Family::TransactionPool, Shape::Full),
        Step::Build(Family::SelectChain, Shape::Full),
        Step::Build(Family::BlockImport, Shape::Full),
        Step::Build(Family::ImportQueue, Shape::Full),
        Step::Build(Family::FinalityProofProvider, Shape::Full),
    ] + if with_rpc {
        seq![Step::Build(Family::RpcExtensions, Shape::Full)]
    } else {
        Seq::empty()
    }
}

pub open spec fn spec_light_components() -> Seq<Step> {
    seq![
        Step::Build(Family::TransactionPool, Shape::Light),
        Step::Build(Family::SelectChain, Shape::Light),
        Step::Build(Family::BlockImport, Shape::Light),
        Step::Build(Family::ImportQueue, Shape::Light),
        Step::Build(Family::FinalityProofProvider, Shape::Light),
    ]
}

pub open spec fn spec_ops_components() -> Seq<Step> {
    seq![
        Step::Build(Family::SelectChain, Shape::Full),
        Step::Build(Family::BlockImport, Shape::Full),
        Step::Build(Family::ImportQueue, Shape::Full),
    ]
}

/// A full node's parts, then its components in dependency order: the pool,
/// the chain selector, the block import that uses it, the import queue that
/// feeds that block import, the finality-proof provider, and the RPC
/// extensions that need all of them.
pub fn full_node_steps(config: &Configuration) -> (r: Vec<Step>)
    ensures
        r@ == spec_full_parts(*config) + spec_full_components(true),
{
    let mut r = new_full_parts(config);
    push_one(&mut r, Step::Build(Family::TransactionPool, Shape::Full));
    push_one(&mut r, Step::Build(Family::SelectChain, Shape::Full));
    push_one(&mut r, Step::Build(Family::BlockImport, Shape::Full));
    push_one(&mut r, Step::Build(Family::ImportQueue, Shape::Full));
    push_one(&mut r, Step::Build(Family::FinalityProofProvider, Shape::Full));
    push_one(&mut r, Step::Build(Family::RpcExtensions, Shape::Full));
    proof {
        assert(r@ =~= spec_full_parts(*config) + spec_full_components(true));
    }
    r
}

/// A light node's parts, then its components: the pool, the chain selector,
/// the block import with its finality-proof request builder, the import
/// queue and the finality-proof provider.
pub fn light_node_steps(config: &Configuration) -> (r: Vec<Step>)
    ensures
        r@ == spec_light_parts(*config) + spec_light_components(),
{
    let mut r = new_light_parts(config);
    push_one(&mut r, Step::Build(Family::TransactionPool, Shape::Light));
    push_one(&mut r, Step::Build(Family::SelectChain, Shape::Light));
    push_one(&mut r, Step::Build(Family::BlockImport, Shape::Light));
    push_one(&mut r, Step::Build(Family::ImportQueue, Shape::Light));
    push_one(&mut r, Step::Build(Family::FinalityProofProvider, Shape::Light));
    proof {
        assert(r@ =~= spec_light_parts(*config) + spec_light_components());
    }
    r
}

/// The parts and components that offline chain operations need: a full
/// client with its import queue, and nothing that serves the network.
pub fn ops_steps(config: &Configuration) -> (r: Vec<Step>)
    ensures
        r@ == spec_full_parts(*config) + spec_ops_components(),
{
    let mut r = new_full_parts(config);
    push_one(&mut r, Step::Build(Family::SelectChain, Shape::Full));
    push_one(&mut r, Step::Build(Family::BlockImport, Shape::Full));
    push_one(&mut r, Step::Build(Family::ImportQueue, Shape::Full));
    proof {
        assert(r@ =~= spec_full_parts(*config) + spec_ops_components());
    }
    r
}

/// The parameters a full node's builder hands to `build`: a finality-proof
/// provider, and none of the light node's remote handles.
pub open spec fn spec_full_service_params(config: Configuration, offchain_storage: bool) -> ServiceParams {
    ServiceParams {
        config,
        shape: Shape::Full,
        offchain_storage,
        on_demand: false,
        remote_blockchain: false,
        finality_proof_request_builder: false,
        finality_proof_provider: true,
        block_announce_validator_builder: false,
    }
}

pub open spec fn spec_light_service_params(config: Configuration, offchain_storage: bool) -> ServiceParams {
    ServiceParams {
        config,
        shape: Shape::Light,
        offchain_storage,
        on_demand: true,
        remote_blockchain: true,
        finality_proof_request_builder: true,
        finality_proof_provider: true,
        block_announce_validator_builder: false,
    }
}

pub fn full_service_params(config: Configuration, offchain_storage: bool) -> (r: ServiceParams)
    ensures
        r == spec_full_service_params(config, offchain_storage),
        r == (ServiceParams {
            config,
            shape: Shape::Full,
            offchain_storage,
            on_demand: false,
            remote_blockchain: false,
            finality_proof_request_builder: false,
            finality_proof_provider: true,
            block_announce_validator_builder: false,
        }),
{
    ServiceParams {
        config,
        shape: Shape::Full,
        offchain_storage,
        on_demand: false,
        remote_blockchain: false,
        finality_proof_request_builder: false,
        finality_proof_provider: true,
        block_announce_validator_builder: false,
    }
}

/// The parameters a light node's builder hands to `build`: the remote
/// fetcher and remote blockchain, and both halves of finality proving.
pub fn light_service_params(config: Configuration, offchain_storage: bool) -> (r: ServiceParams)
    ensures
        r == spec_light_service_params(config, offchain_storage),
        r == (ServiceParams {
            config,
            shape: Shape::Light,
            offchain_storage,
            on_demand: true,
            remote_blockchain: true,
            finality_proof_request_builder: true,
            finality_proof_provider: true,
            block_announce_validator_builder: false,
        }),
{
    ServiceParams {
        config,
        shape: Shape::Light,
        offchain_storage,
        on_demand: true,
        remote_blockchain: true,
        finality_proof_request_builder: true,
        finality_proof_provider: true,
        block_announce_validator_builder: false,
    }
}

/// How a step ended.
#[derive(Clone, Copy, PartialEq, Eq, Debug)]
pub enum Outcome {
    Done,
    Failed(Error),
}

/// Why a step failed.
#[derive(Clone, Copy, PartialEq, Eq, Debug)]
pub enum Error {
    Keystore,
    TaskRegistry,
    Client,
    Consensus,
    SessionKeys,
    Network,
    Metrics,
    Rpc,
    Telemetry,
    Tracing,
    /// The node was stopped before assembly finished.
    Shutdown,
}

/// Where assembly stands.
#[derive(Clone, Copy, PartialEq, Eq, Debug)]
pub enum Phase {
    InProgress,
    /// Every step ran; failures after the network started were logged.
    Completed,
    /// A step before the network started failed; nothing was left running.
    Aborted(Error),
}

/// A failure that was logged and let the node go on.
#[derive(Clone, Copy, PartialEq, Eq, Debug)]
pub struct Degraded {
    pub step: usize,
    pub error: Error,
}

/// What the assembled node offers besides its tasks.
#[derive(Clone, Copy, PartialEq, Eq, Debug)]
pub struct Features {
    pub offchain_workers: bool,
    pub metrics: bool,
    pub rpc_servers: bool,
    pub internal_rpc: bool,
    pub telemetry: bool,
    pub tracing: bool,
}

/// The resources a node keeps until it stops, given what it started.
pub open spec fn spec_kept(f: Features) -> Seq<Resource> {
    (if f.telemetry {
        seq![Resource::Telemetry]
    } else {
        Seq::empty()
    }) + seq![Resource::BasePath] + (if f.rpc_servers {
        seq![Resource::RpcServers]
    } else {
        Seq::empty()
    }) + (if f.internal_rpc {
        seq![Resource::RpcHandlers]
    } else {
        Seq::empty()
    })
}

fn kept_resources(f: Features) -> (r: Vec<Resource>)
    ensures
        r@ == spec_kept(f),
{
    let mut r: Vec<Resource> = Vec::new();
    if f.telemetry {
        r.push(Resource::Telemetry);
    }
    r.push(Resource::BasePath);
    if f.rpc_servers {
        r.push(Resource::RpcServers);
    }
    if f.internal_rpc {
        r.push(Resource::RpcHandlers);
    }
    proof {
        assert(r@ =~= spec_kept(f));
    }
    r
}

/// The features after `s` succeeded.
pub open spec fn with_success(f: Features, s: Step) -> Features {
    match s {
        Step::StartOffchainWorkers => Features { offchain_workers: true, ..f },
        Step::StartMetrics(_) => Features { metrics: true, ..f },
        Step::StartRpcServers => Features { rpc_servers: true, ..f },
        Step::BuildInternalRpc => Features { internal_rpc: true, ..f },
        Step::InitTelemetry => Features { telemetry: true, ..f },
        Step::InstallTracing => Features { tracing: true, ..f },
        _ => f,
    }
}

/// A run of assembly steps, one outcome at a time.
pub struct Assembly {
    steps: Vec<Step>,
    next: usize,
    phase: Phase,
    degraded: Vec<Degraded>,
    features: Features,
    registry: TaskRegistry,
}

impl Assembly {
    pub closed spec fn steps_v(&self) -> Seq<Step> {
        self.steps@
    }

    pub closed spec fn next_v(&self) -> usize {
        self.next
    }

    pub closed spec fn phase_v(&self) -> Phase {
        self.phase
    }

    pub closed spec fn degraded_v(&self) -> Seq<Degraded> {
        self.degraded@
    }

    pub closed spec fn features_v(&self) -> Features {
        self.features
    }

    pub closed spec fn registry_v(&self) -> TaskRegistry {
        self.registry
    }

    /// Where assembly stands.
    pub fn phase(&self) -> (r: Phase)
        ensures
            r == self.phase_v(),
    {
        self.phase
    }

    /// What the node offers so far.
    pub fn features(&self) -> (r: Features)
        ensures
            r == self.features_v(),
    {
        self.features
    }

    /// The steps of this run.
    pub fn steps(&self) -> (r: &Vec<Step>)
        ensures
            r@ == self.steps_v(),
    {
        &self.steps
    }

    /// The failures that were logged and let the node go on.
    pub fn degraded(&self) -> (r: &Vec<Degraded>)
        ensures
            r@ == self.degraded_v(),
    {
        &self.degraded
    }

    /// The node's task registry.
    pub fn registry(&self) -> (r: &TaskRegistry)
        ensures
            *r == self.registry_v(),
    {
        &self.registry
    }

    /// Stops the node: every task is cancelled and every kept resource
    /// released, and both are handed back for teardown.
    pub fn shutdown(&mut self) -> (r: Shutdown)
        requires
            old(self).wf(),
        ensures
            final(self).wf(),
            final(self).phase_v() == (if old(self).phase_v() is InProgress {
                Phase::Aborted(Error::Shutdown)
            } else {
                old(self).phase_v()
            }),
            final(self).steps_v() == old(self).steps_v(),
            !final(self).registry_v()@.running,
            final(self).registry_v()@.tasks.len() == 0,
            final(self).registry_v()@.keep_alive.len() == 0,
            r.cancelled@ == old(self).registry_v()@.tasks,
            r.released@ == old(self).registry_v()@.keep_alive,
    {
        let r = self.registry.shutdown();
        match self.phase {
            Phase::InProgress => {
                self.phase = Phase::Aborted(Error::Shutdown);
            },
            _ => {},
        }
        r
    }

    pub open spec fn wf(&self) -> bool {
        &&& self.registry_v().wf()
        &&& self.next_v() <= self.steps_v().len()
        &&& (self.phase_v() is InProgress ==> self.next_v() < self.steps_v().len() && self.registry_v()@.running)
        &&& (self.phase_v() is Completed ==> self.next_v() == self.steps_v().len())
        &&& (self.features_v().offchain_workers ==> exists|i: int|
            0 <= i < self.next_v() && self.steps_v()[i] is StartOffchainWorkers)
    }

    /// A run of `steps` that has not begun.
    pub fn new(steps: Vec<Step>) -> (r: Assembly)
        ensures
            r.wf(),
            r.steps_v() == steps@,
            r.next_v() == 0,
            r.phase_v() == (if steps@.len() == 0 {
                Phase::Completed
            } else {
                Phase::InProgress
            }),
            r.degraded_v().len() == 0,
            r.features_v() == (Features {
                offchain_workers: false,
                metrics: false,
                rpc_servers: false,
                internal_rpc: false,
                telemetry: false,
                tracing: false,
            }),
            r.registry_v()@.running,
            r.registry_v()@.tasks.len() == 0,
            r.registry_v()@.keep_alive.len() == 0,
    {
        let phase = if steps.len() == 0 {
            Phase::Completed
        } else {
            Phase::InProgress
        };
        Assembly {
            steps,
            next: 0,
            phase,
            degraded: Vec::new(),
            features: Features {
                offchain_workers: false,
                metrics: false,
                rpc_servers: false,
                internal_rpc: false,
                telemetry: false,
                tracing: false,
            },
            registry: TaskRegistry::new(),
        }
    }

    /// The step to perform now.
    pub fn current(&self) -> (r: &Step)
        requires
            self.wf(),
            self.phase_v() is InProgress,
        ensures
            *r == self.steps_v()[self.next_v() as int],
    {
        &self.steps[self.next]
    }

    /// Takes the outcome of the current step. A failure of a step before the
    /// network starts aborts assembly and stops the registry; a later failure
    /// is recorded and assembly goes on without that feature.
    pub fn advance(&mut self, outcome: Outcome)
        requires
            old(self).wf(),
            old(self).phase_v() is InProgress,
        ensures
            final(self).wf(),
            final(self).steps_v() == old(self).steps_v(),
            ({
                let s = old(self).steps_v()[old(self).next_v() as int];
                match outcome {
                    Outcome::Failed(e) => if is_fatal(s) {
                        &&& final(self).phase_v() == Phase::Aborted(e)
                        &&& final(self).next_v() == old(self).next_v()
                        &&& !final(self).registry_v()@.running
                        &&& final(self).features_v() == old(self).features_v()
                        &&& final(self).degraded_v() == old(self).degraded_v()
                    } else {
                        &&& final(self).next_v() == old(self).next_v() + 1
                        &&& final(self).phase_v() == (if final(self).next_v() == old(self).steps_v().len() {
                            Phase::Completed
                        } else {
                            Phase::InProgress
                        })
                        &&& final(self).degraded_v() == old(self).degraded_v().push(
                            Degraded { step: old(self).next_v(), error: e },
                        )
                        &&& final(self).features_v() == old(self).features_v()
                        &&& final(self).registry_v()@ == old(self).registry_v()@
                    },
                    Outcome::Done => {
                        &&& final(self).next_v() == old(self).next_v() + 1
                        &&& final(self).phase_v() == (if final(self).next_v() == old(self).steps_v().len() {
                            Phase::Completed
                        } else {
                            Phase::InProgress
                        })
                        &&& final(self).degraded_v() == old(self).degraded_v()
                        &&& final(self).features_v() == with_success(old(self).features_v(), s)
                        &&& final(self).registry_v()@.running
                        &&& match started_task(s) {
                            Some(t) => {
                                &&& final(self).registry_v()@.tasks.len() == old(self).registry_v()@.tasks.len() + 1
                                &&& final(self).registry_v()@.tasks.drop_last() == old(self).registry_v()@.tasks
                                &&& final(self).registry_v()@.tasks.last().kind == spec_task_kind(t)
                                &&& final(self).registry_v()@.tasks.last().name@ == spec_task_name(t)
                            },
                            None => final(self).registry_v()@.tasks == old(self).registry_v()@.tasks,
                        }
                        &&& final(self).registry_v()@.keep_alive == if s is KeepAlive {
                            old(self).registry_v()@.keep_alive + spec_kept(old(self).features_v())
                        } else {
                            old(self).registry_v()@.keep_alive
                        }
                    },
                }
            }),
    {
        let n = self.next;
        let len = self.steps.len();
        let step = &self.steps[n];
        let ghost s = *step;
        match outcome {
            Outcome::Failed(e) => {
                let fatal = match step {
                    Step::OpenKeystore(_) | Step::CreateTaskRegistry { .. } | Step::CreateExecutor(_)
                    | Step::OpenFullBackend { .. } | Step::OpenLightStorage(_)
                    | Step::CreateFetchVerifier | Step::CreateLightClient { .. } | Step::Build(_, _)
                    | Step::GenerateSessionKeys(_) | Step::BuildNetwork => true,
                    _ => false,
                };
                if fatal {
                    self.phase = Phase::Aborted(e);
                    let _ = self.registry.shutdown();
                    return ;
                }
                self.degraded.push(Degraded { step: n, error: e });
            },
            Outcome::Done => {
                let task = match step {
                    Step::Spawn(t) => Some(*t),
                    Step::StartMetrics(_) => Some(ServiceTask::PrometheusEndpoint),
                    Step::InitTelemetry => Some(ServiceTask::TelemetryWorker),
                    _ => None,
                };
                let before = self.features;
                match step {
                    Step::StartOffchainWorkers => {
                        self.features.offchain_workers = true;
                    },
                    Step::StartMetrics(_) => {
                        self.features.metrics = true;
                    },
                    Step::StartRpcServers => {
                        self.features.rpc_servers = true;
                    },
                    Step::BuildInternalRpc => {
                        self.features.internal_rpc = true;
                    },
                    Step::InitTelemetry => {
                        self.features.telemetry = true;
                    },
                    Step::InstallTracing => {
                        self.features.tracing = true;
                    },
                    _ => {},
                }
                let keep = match step {
                    Step::KeepAlive => true,
                    _ => false,
                };
                match task {
                    Some(t) => {
                        let _ = self.registry.spawn_task(t.name(), t.kind());
                    },
                    None => {},
                }
                if keep {
                    let _ = self.registry.keep_alive(kept_resources(before));
                }
            },
        }
        self.next = n + 1;
        if self.next == len {
            self.phase = Phase::Completed;
        }
    }
}

/// What `build` hands back: the run of assembly steps, the network's
/// parameters, and the node's one network-status registry with its standing
/// subscriptions.
#[verifier::reject_recursive_types(T)]
pub struct ServiceComponents<T> {
    pub assembly: Assembly,
    pub network: NetworkPlan,
    /// The chain spec named no protocol identifier; the default is used.
    pub default_protocol_id: bool,
    pub network_status_sinks: StatusSinks<T>,
    pub status_receivers: StatusReceivers<T>,
}

/// Starts assembly of a node from its built parts. `params` is consumed: the
/// parts it holds are wired exactly once.
pub fn build<T: Clone>(params: ServiceParams) -> (r: ServiceComponents<T>)
    ensures
        r.assembly.wf(),
        r.assembly.steps_v() == spec_service_steps(params),
        r.assembly.next_v() == 0,
        r.assembly.phase_v() is InProgress,
        r.assembly.degraded_v().len() == 0,
        r.assembly.features_v() == (Features {
            offchain_workers: false,
            metrics: false,
            rpc_servers: false,
            internal_rpc: false,
            telemetry: false,
            tracing: false,
        }),
        r.assembly.registry_v()@.running,
        r.assembly.registry_v()@.tasks.len() == 0,
        r.assembly.registry_v()@.keep_alive.len() == 0,
        r.network == spec_network_plan(params.config, spec_network_inputs(params), r.network.protocol_id),
        r.network.protocol_id@ == spec_protocol_id(params.config.protocol_id),
        r.default_protocol_id == params.config.protocol_id.is_none(),
        r.network_status_sinks@ == spec_standing_subscriptions(),
{
    let steps = service_steps(&params);
    let inputs = NetworkInputs {
        custom_block_announce_validator: params.block_announce_validator_builder,
        with_on_demand: params.on_demand,
        with_finality_proof_provider: params.finality_proof_provider,
        with_finality_proof_request_builder: params.finality_proof_request_builder,
    };
    let (network, default_protocol_id) = network_plan(&params.config, inputs);
    let (network_status_sinks, status_receivers) = network_status_sinks();
    ServiceComponents {
        assembly: Assembly::new(steps),
        network,
        default_protocol_id,
        network_status_sinks,
        status_receivers,
    }
}

/// Every element of `s` satisfies `pred`.
pub open spec fn all_steps(s: Seq<Step>, pred: spec_fn(Step) -> bool) -> bool {
    forall|k: int| 0 <= k < s.len() ==> pred(#[trigger] s[k])
}

proof fn lemma_all_steps_concat(a: Seq<Step>, b: Seq<Step>, pred: spec_fn(Step) -> bool)
    requires
        all_steps(a, pred),
        all_steps(b, pred),
    ensures
        all_steps(a + b, pred),
{
    assert forall|k: int| 0 <= k < (a + b).len() implies pred(#[trigger] (a + b)[k]) by {
        if k < a.len() {
            assert((a + b)[k] == a[k]);
        } else {
            assert((a + b)[k] == b[k - a.len()]);
        }
    }
}

proof fn lemma_warnings_concat(a: Seq<Step>, b: Seq<Step>)
    ensures
        warnings(a + b) == warnings(a) + warnings(b),
    decreases b.len(),
{
    if b.len() == 0 {
        assert(a + b =~= a);
    } else {
        lemma_warnings_concat(a, b.drop_last());
        assert((a + b).drop_last() =~= a + b.drop_last());
    }
}

proof fn lemma_warnings_none(s: Seq<Step>)
    requires
        all_steps(s, |x: Step| !(x is Warn)),
    ensures
        warnings(s) == 0,
    decreases s.len(),
{
    if s.len() > 0 {
        assert(all_steps(s.drop_last(), |x: Step| !(x is Warn))) by {
            assert forall|k: int| 0 <= k < s.drop_last().len() implies !(#[trigger] s.drop_last()[k] is Warn) by {
                assert(s.drop_last()[k] == s[k]);
            }
        }
        lemma_warnings_none(s.drop_last());
        assert(s.last() == s[s.len() - 1]);
    }
}

/// The steps that are neither fatal, nor warnings, nor about offchain workers.
pub open spec fn plain(s: Step) -> bool {
    !is_fatal(s) && !(s is Warn) && !(s is StartOffchainWorkers) && s != Step::Spawn(
        ServiceTask::OffchainNotifications,
    )
}

/// Chains `lemma_all_steps_concat` along the steps after the offchain
/// decision, given the one parameter-dependent offchain piece.
proof fn lemma_rest_all(p: ServiceParams, pred: spec_fn(Step) -> bool)
    requires
        forall|s: Step| plain(s) ==> #[trigger] pred(s),
        all_steps(opt(offchain_active(p), Step::Spawn(ServiceTask::OffchainNotifications)), pred),
    ensures
        all_steps(spec_service_rest(p), pred),
{
    let c = p.config;
    assert(plain(Step::Spawn(ServiceTask::TxpoolNotifications)));
    assert(plain(Step::Spawn(ServiceTask::OnTransactionImported)));
    assert(plain(Step::Spawn(ServiceTask::TelemetryPeriodicSend)));
    assert(plain(Step::Spawn(ServiceTask::TelemetryPeriodicNetworkState)));
    assert(plain(Step::StartRpcServers));
    assert(plain(Step::BuildInternalRpc));
    assert(plain(Step::InitTelemetry));
    assert(plain(Step::InstallTracing));
    assert(plain(Step::Spawn(ServiceTask::Informant)));
    assert(plain(Step::KeepAlive));
    match c.prometheus_config {
        Some(m) => {
            assert(plain(Step::StartMetrics(m.port)));
        },
        None => {},
    }
    let s1 = seq![Step::Spawn(ServiceTask::TxpoolNotifications)];
    let s2 = opt(offchain_active(p), Step::Spawn(ServiceTask::OffchainNotifications));
    let s3 = seq![Step::Spawn(ServiceTask::OnTransactionImported)];
    let s4 = metrics_segment(c);
    let s5 = seq![
        Step::Spawn(ServiceTask::TelemetryPeriodicSend),
        Step::Spawn(ServiceTask::TelemetryPeriodicNetworkState),
        Step::StartRpcServers,
    ];
    let s6 = opt(c.internal_rpc, Step::BuildInternalRpc);
    let s7 = opt(c.telemetry_endpoints is Some, Step::InitTelemetry);
    let s8 = opt(c.tracing_targets is Some, Step::InstallTracing);
    let s9 = seq![Step::Spawn(ServiceTask::Informant), Step::KeepAlive];
    assert(all_steps(s1, pred));
    assert(all_steps(s3, pred));
    assert(all_steps(s4, pred));
    assert(all_steps(s5, pred));
    assert(all_steps(s6, pred));
    assert(all_steps(s7, pred));
    assert(all_steps(s8, pred));
    assert(all_steps(s9, pred));
    lemma_all_steps_concat(s1, s2, pred);
    lemma_all_steps_concat(s1 + s2, s3, pred);
    lemma_all_steps_concat(s1 + s2 + s3, s4, pred);
    lemma_all_steps_concat(s1 + s2 + s3 + s4, s5, pred);
    lemma_all_steps_concat(s1 + s2 + s3 + s4 + s5, s6, pred);
    lemma_all_steps_concat(s1 + s2 + s3 + s4 + s5 + s6, s7, pred);
    lemma_all_steps_concat(s1 + s2 + s3 + s4 + s5 + s6 + s7, s8, pred);
    lemma_all_steps_concat(s1 + s2 + s3 + s4 + s5 + s6 + s7 + s8, s9, pred);
}

/// Error policy of node assembly: every step whose failure aborts assembly
/// comes before every step that starts a task, so an aborted assembly never
/// leaves a task running.
pub proof fn lemma_fatal_steps_precede_tasks(p: ServiceParams)
    ensures
        forall|i: int, j: int|
            0 <= i < spec_service_steps(p).len() && 0 <= j < spec_service_steps(p).len()
                && is_fatal(#[trigger] spec_service_steps(p)[j]) && (#[trigger] started_task(
                spec_service_steps(p)[i],
            )) is Some ==> j < i,
{
    let head = spec_service_head(p);
    let tail = spec_service_tail(p);
    let pred = |s: Step| !is_fatal(s);
    assert(all_steps(opt(offchain_active(p), Step::Spawn(ServiceTask::OffchainNotifications)), pred));
    lemma_rest_all(p, pred);
    let pre = seq![Step::Spawn(ServiceTask::NetworkWorker)];
    assert(all_steps(pre, pred));
    assert(all_steps(offchain_segment(p), pred));
    lemma_all_steps_concat(pre, offchain_segment(p), pred);
    lemma_all_steps_concat(pre + offchain_segment(p), spec_service_rest(p), pred);
    assert forall|i: int, j: int|
        0 <= i < spec_service_steps(p).len() && 0 <= j < spec_service_steps(p).len()
            && is_fatal(#[trigger] spec_service_steps(p)[j]) && (#[trigger] started_task(
            spec_service_steps(p)[i],
        )) is Some implies j < i by {
        if j >= head.len() {
            assert(spec_service_steps(p)[j] == tail[j - head.len()]);
            assert(pred(tail[j - head.len()]));
        }
        if i < head.len() {
            assert(spec_service_steps(p)[i] == head[i]);
            assert(head.len() <= 3);
        }
    }
}

/// A node whose backend has no offchain storage has no step that starts
/// offchain workers or their notification task.
pub proof fn lemma_no_offchain_steps_without_storage(p: ServiceParams)
    requires
        !p.offchain_storage,
    ensures
        forall|k: int|
            0 <= k < spec_service_steps(p).len() ==> !(#[trigger] spec_service_steps(
                p,
            )[k] is StartOffchainWorkers) && spec_service_steps(p)[k] != Step::Spawn(
                ServiceTask::OffchainNotifications,
            ),
{
    let head = spec_service_head(p);
    let rest = spec_service_rest(p);
    let pre = seq![Step::Spawn(ServiceTask::NetworkWorker)];
    let seg = offchain_segment(p);
    let not_offchain = |s: Step|
        !(s is StartOffchainWorkers) && s != Step::Spawn(ServiceTask::OffchainNotifications);
    assert(opt(offchain_active(p), Step::Spawn(ServiceTask::OffchainNotifications)) =~= Seq::<
        Step,
    >::empty());
    assert(all_steps(opt(offchain_active(p), Step::Spawn(ServiceTask::OffchainNotifications)), not_offchain));
    lemma_rest_all(p, not_offchain);
    assert(all_steps(head, not_offchain)) by {
        assert(head.len() <= 3);
    }
    assert(all_steps(pre, not_offchain));
    assert(all_steps(seg, not_offchain));
    lemma_all_steps_concat(head, pre, not_offchain);
    lemma_all_steps_concat(head + pre, seg, not_offchain);
    lemma_all_steps_concat(head + pre + seg, rest, not_offchain);
    assert(spec_service_steps(p) =~= head + pre + seg + rest);
}

/// A full node whose offchain workers are enabled but whose backend has no
/// offchain storage starts no offchain worker and no offchain task, and the
/// missing storage is the one warning of its assembly (given a configured
/// protocol identifier).
pub proof fn lemma_offchain_without_storage(p: ServiceParams)
    requires
        p.shape == Shape::Full,
        p.config.offchain_worker.enabled,
        !p.offchain_storage,
        p.config.protocol_id is Some,
    ensures
        warnings(spec_service_steps(p)) == 1,
        forall|k: int|
            0 <= k < spec_service_steps(p).len() ==> !(#[trigger] spec_service_steps(
                p,
            )[k] is StartOffchainWorkers) && spec_service_steps(p)[k] != Step::Spawn(
                ServiceTask::OffchainNotifications,
            ),
{
    lemma_no_offchain_steps_without_storage(p);
    let head = spec_service_head(p);
    let rest = spec_service_rest(p);
    let pre = seq![Step::Spawn(ServiceTask::NetworkWorker)];
    let warn = offchain_segment(p);
    assert(warn == seq![Step::Warn(Warning::OffchainStorageMissing)]);
    assert(head =~= seq![Step::GenerateSessionKeys(p.config.dev_key_seed), Step::BuildNetwork]);
    assert(spec_service_steps(p) =~= head + pre + warn + rest);
    let no_warn = |s: Step| !(s is Warn);
    assert(opt(offchain_active(p), Step::Spawn(ServiceTask::OffchainNotifications)) =~= Seq::<
        Step,
    >::empty());
    assert(all_steps(opt(offchain_active(p), Step::Spawn(ServiceTask::OffchainNotifications)), no_warn));
    lemma_rest_all(p, no_warn);
    assert(all_steps(head, no_warn));
    assert(all_steps(pre, no_warn));
    lemma_warnings_none(head);
    lemma_warnings_none(pre);
    lemma_warnings_none(rest);
    assert(warnings(warn) == 1) by {
        assert(warn.drop_last() =~= Seq::<Step>::empty());
        assert(warnings(warn.drop_last()) == 0);
        assert(warn.last() is Warn);
    }
    lemma_warnings_concat(head, pre);
    lemma_warnings_concat(head + pre, warn);
    lemma_warnings_concat(head + pre + warn, rest);
}

/// In every state of a run of a node's assembly, offchain workers are on
/// only if a step started them; so a node whose backend lacks offchain
/// storage never has them.
pub proof fn lemma_no_offchain_workers_without_storage(a: Assembly, p: ServiceParams)
    requires
        a.wf(),
        a.steps_v() == spec_service_steps(p),
        !p.offchain_storage,
    ensures
        !a.features_v().offchain_workers,
{
    lemma_no_offchain_steps_without_storage(p);
    if a.features_v().offchain_workers {
        let i = choose|i: int| 0 <= i < a.next_v() && a.steps_v()[i] is StartOffchainWorkers;
        assert(!(spec_service_steps(p)[i] is StartOffchainWorkers));
    }
}

} // verus!
