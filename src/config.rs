//! The node's configuration and the settings derived from it for the
//! storage backend, the client and the code executor.
use vstd::prelude::*;

verus! {

/// The part a node plays in the network.
#[derive(Clone, Copy, PartialEq, Eq, Debug)]
pub enum Role {
    Full,
    Light,
    Sentry,
    Authority,
}

impl Role {
    pub open spec fn spec_is_authority(&self) -> bool {
        *self is Authority
    }

    /// Whether the node takes part in block authoring.
    #[verifier::when_used_as_spec(spec_is_authority)]
    pub fn is_authority(&self) -> (r: bool)
        ensures
            r == self.spec_is_authority(),
    {
        match self {
            Role::Authority => true,
            _ => false,
        }
    }

    pub open spec fn spec_is_light(&self) -> bool {
        *self is Light
    }

    /// Whether the node is a light node.
    #[verifier::when_used_as_spec(spec_is_light)]
    pub fn is_light(&self) -> (r: bool)
        ensures
            r == self.spec_is_light(),
    {
        match self {
            Role::Light => true,
            _ => false,
        }
    }
}

/// Where the keystore lives.
#[derive(Clone, Debug)]
pub enum KeystoreConfig {
    /// On disk, at `path`, optionally encrypted with `password`.
    Path { path: String, password: Option<String> },
    /// In memory only.
    InMemory,
}

impl KeystoreConfig {
    /// A copy equal to `self`.
    pub fn duplicate(&self) -> (r: Self)
        ensures
            r == *self,
    {
        match self {
            KeystoreConfig::Path { path, password } => {
                let password = match password {
                    Some(p) => Some(p.clone()),
                    None => None,
                };
                KeystoreConfig::Path { path: path.clone(), password }
            },
            KeystoreConfig::InMemory => KeystoreConfig::InMemory,
        }
    }
}

/// How runtime code is executed.
#[derive(Clone, Copy, PartialEq, Eq, Debug)]
pub enum WasmExecutionMethod {
    Interpreted,
    Compiled,
}

/// Offchain worker switches.
#[derive(Clone, Copy, PartialEq, Eq, Debug)]
pub struct OffchainWorkerConfig {
    pub enabled: bool,
    pub indexing_enabled: bool,
}

/// Which blocks the database keeps state for.
#[derive(Clone, Copy, PartialEq, Eq, Debug)]
pub enum PruningMode {
    /// Keep the state of the last `n` blocks.
    KeepBlocks(u32),
    /// Keep the state of all blocks.
    ArchiveAll,
    /// Keep the state of all canonical blocks.
    ArchiveCanonical,
}

/// A metrics endpoint to expose.
#[derive(Clone, Copy, PartialEq, Eq, Debug)]
pub struct PrometheusConfig {
    pub port: u16,
}

/// A telemetry endpoint: its URL and the verbosity it accepts.
#[derive(Clone, Debug)]
pub struct TelemetryEndpoint {
    pub url: String,
    pub verbosity: u8,
}

/// Everything assembly reads; read-only once assembly begins.
#[derive(Clone, Debug)]
pub struct Configuration {
    pub role: Role,
    pub keystore: KeystoreConfig,
    pub database_path: String,
    pub state_cache_size: usize,
    pub state_cache_child_ratio: Option<usize>,
    pub pruning: PruningMode,
    pub wasm_method: WasmExecutionMethod,
    pub default_heap_pages: Option<u64>,
    pub max_runtime_instances: usize,
    pub offchain_worker: OffchainWorkerConfig,
    pub prometheus_config: Option<PrometheusConfig>,
    pub telemetry_endpoints: Option<Vec<TelemetryEndpoint>>,
    pub tracing_targets: Option<String>,
    pub dev_key_seed: Option<String>,
    pub node_name: String,
    pub impl_name: String,
    pub impl_version: String,
    pub chain_name: String,
    pub protocol_id: Option<String>,
    pub boot_nodes: Vec<String>,
    pub announce_block: bool,
    pub internal_rpc: bool,
}

/// Settings handed to the storage backend when it is opened.
#[derive(Clone, Debug)]
pub struct DatabaseSettings {
    pub state_cache_size: usize,
    /// The share of the state cache given to child tries, as a fraction.
    pub state_cache_child_ratio: Option<(usize, usize)>,
    pub pruning: PruningMode,
    pub source: String,
}

/// Settings handed to the client.
#[derive(Clone, Copy, PartialEq, Eq, Debug)]
pub struct ClientConfig {
    pub offchain_worker_enabled: bool,
    pub offchain_indexing_api: bool,
}

/// Settings handed to the code executor.
#[derive(Clone, Copy, PartialEq, Eq, Debug)]
pub struct ExecutorSettings {
    pub wasm_method: WasmExecutionMethod,
    pub default_heap_pages: Option<u64>,
    pub max_runtime_instances: usize,
}

/// The denominator of the child-trie share of the state cache.
pub const CHILD_RATIO_DENOMINATOR: usize = 100;

pub open spec fn spec_database_settings(c: Configuration) -> DatabaseSettings {
    DatabaseSettings {
        state_cache_size: c.state_cache_size,
        state_cache_child_ratio: match c.state_cache_child_ratio {
            Some(v) => Some((v, CHILD_RATIO_DENOMINATOR)),
            None => None,
        },
        pruning: c.pruning,
        source: c.database_path,
    }
}

/// The database settings of `config`: the child-trie share is a percentage.
pub fn database_settings(config: &Configuration) -> (r: DatabaseSettings)
    ensures
        r == spec_database_settings(*config),
{
    DatabaseSettings {
        state_cache_size: config.state_cache_size,
        state_cache_child_ratio: match config.state_cache_child_ratio {
            Some(v) => Some((v, CHILD_RATIO_DENOMINATOR)),
            None => None,
        },
        pruning: config.pruning,
        source: config.database_path.clone(),
    }
}

pub open spec fn spec_client_config(c: Configuration) -> ClientConfig {
    ClientConfig {
        offchain_worker_enabled: c.offchain_worker.enabled,
        offchain_indexing_api: c.offchain_worker.indexing_enabled,
    }
}

/// The client settings of `config`.
pub fn client_config(config: &Configuration) -> (r: ClientConfig)
    ensures
        r == spec_client_config(*config),
{
    ClientConfig {
        offchain_worker_enabled: config.offchain_worker.enabled,
        offchain_indexing_api: config.offchain_worker.indexing_enabled,
    }
}

pub open spec fn spec_executor_settings(c: Configuration) -> ExecutorSettings {
    ExecutorSettings {
        wasm_method: c.wasm_method,
        default_heap_pages: c.default_heap_pages,
        max_runtime_instances: c.max_runtime_instances,
    }
}

/// The executor settings of `config`.
pub fn executor_settings(config: &Configuration) -> (r: ExecutorSettings)
    ensures
        r == spec_executor_settings(*config),
{
    ExecutorSettings {
        wasm_method: config.wasm_method,
        default_heap_pages: config.default_heap_pages,
        max_runtime_instances: config.max_runtime_instances,
    }
}

pub open spec fn spec_seeds(seed: Option<String>) -> Seq<String> {
    match seed {
        Some(s) => seq![s],
        None => Seq::empty(),
    }
}

/// The seeds from which initial session keys are generated: `seed` alone,
/// or none.
pub fn seeds_from(seed: &Option<String>) -> (r: Vec<String>)
    ensures
        r@ == spec_seeds(*seed),
{
    match seed {
        Some(s) => {
            let mut v: Vec<String> = Vec::new();
            v.push(s.clone());
            proof {
                assert(v@ =~= seq![*s]);
            }
            v
        },
        None => {
            let v: Vec<String> = Vec::new();
            proof {
                assert(v@ =~= Seq::<String>::empty());
            }
            v
        },
    }
}

/// The session-key seeds of `config`: its dev key seed alone, or none.
pub fn session_key_seeds(config: &Configuration) -> (r: Vec<String>)
    ensures
        r@ == spec_seeds(config.dev_key_seed),
{
    seeds_from(&config.dev_key_seed)
}

} // verus!
