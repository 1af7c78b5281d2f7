use node_service::components::{
    AuraImportQueueBuilder, BabeBlockImport, BabeImportQueueBuilder,
    BabeLink, BackendRef, BasicPoolBuilder, Builder, ClientRef, GrandpaBlockImport,
    GrandpaBlockImportBuilder, GrandpaFinalityProofProviderBuilder, LongestChain,
    LongestChainBuilder, NoRpc, PoolChainApi, RpcExtensions,
};
use node_service::config::{
    Configuration, KeystoreConfig, OffchainWorkerConfig, PruningMode, Role, WasmExecutionMethod,
};
use node_service::pipeline::Shape;
use node_service::rpc::{DenyUnsafe, MethodSet, NoopRpcExtensionBuilder, RpcExtensionBuilder, RpcMethod};

fn node_config() -> Configuration {
    Configuration {
        role: Role::Full,
        keystore: KeystoreConfig::InMemory,
        database_path: "/db".to_string(),
        state_cache_size: 0,
        state_cache_child_ratio: None,
        pruning: PruningMode::ArchiveAll,
        wasm_method: WasmExecutionMethod::Interpreted,
        default_heap_pages: None,
        max_runtime_instances: 1,
        offchain_worker: OffchainWorkerConfig { enabled: false, indexing_enabled: false },
        prometheus_config: None,
        telemetry_endpoints: None,
        tracing_targets: None,
        dev_key_seed: None,
        node_name: "n".to_string(),
        impl_name: "impl".to_string(),
        impl_version: "1.0".to_string(),
        chain_name: "dev".to_string(),
        protocol_id: None,
        boot_nodes: vec![],
        announce_block: true,
        internal_rpc: false,
    }
}

struct BabeNode;

impl Builder for BabeNode {
    type TransactionPoolBuilder = BasicPoolBuilder;
    type SelectChainBuilder = LongestChainBuilder;
    type BlockImportBuilder = GrandpaBlockImportBuilder<LongestChainBuilder>;
    type ImportQueueBuilder = BabeImportQueueBuilder<GrandpaBlockImportBuilder<LongestChainBuilder>>;
    type FinalityProofProviderBuilder = GrandpaFinalityProofProviderBuilder;
}

struct AuraNode;

impl Builder for AuraNode {
    type TransactionPoolBuilder = BasicPoolBuilder;
    type SelectChainBuilder = LongestChainBuilder;
    type BlockImportBuilder = GrandpaBlockImportBuilder<LongestChainBuilder>;
    type ImportQueueBuilder = AuraImportQueueBuilder<GrandpaBlockImportBuilder<LongestChainBuilder>>;
    type FinalityProofProviderBuilder = GrandpaFinalityProofProviderBuilder;
}

#[test]
fn babe_full_node_composes_matching_components() {
    let c = BabeNode::build_full(node_config(), true, &NoRpc::<BabeNode>::default());
    let full = BackendRef { shape: Shape::Full };
    let client = ClientRef { shape: Shape::Full };
    let chain = LongestChain { backend: full };
    assert_eq!(c.select_chain, chain);
    assert_eq!(c.transaction_pool.api, PoolChainApi::Full(client));
    let grandpa = GrandpaBlockImport { client, select_chain: chain };
    assert_eq!(c.block_import, grandpa);
    assert_eq!(c.block_import_link.select_chain, chain);
    let link = BabeLink { client };
    assert_eq!(c.import_queue_link, link);
    assert_eq!(c.import_queue_block_import, BabeBlockImport { inner: grandpa, link });
    assert_eq!(c.import_queue.justification_import, Some(grandpa));
    assert_eq!(c.import_queue.finality_proof_import, None);
    assert_eq!(c.finality_proof_provider.backend, full);
}

#[test]
fn aura_light_node_imports_finality_proofs() {
    let c = AuraNode::build_light(node_config(), false);
    let light = ClientRef { shape: Shape::Light };
    assert_eq!(c.client, light);
    assert_eq!(c.import_queue.justification_import, None);
    assert!(c.import_queue.finality_proof_import.is_some());
    assert_eq!(c.import_queue.import, c.block_import);
    assert_eq!(c.select_chain.backend, c.backend);
    assert!(c.params.on_demand && c.params.remote_blockchain && c.params.finality_proof_request_builder);
    assert!(c.rpc_extensions.build(DenyUnsafe::Yes).methods.is_empty());
    assert_eq!(c.import_queue.import.client, light);
    assert_eq!(c.finality_proof_request_builder.client, light);
    assert_eq!(c.transaction_pool.api, PoolChainApi::Light(light, c.on_demand));
}

#[test]
fn aura_full_node_wraps_block_import() {
    let c = AuraNode::build_full(node_config(), false, &NoRpc::<AuraNode>::default());
    assert_eq!(c.import_queue.import, c.import_queue_block_import);
    assert_eq!(c.import_queue_block_import.inner, c.block_import);
    assert_eq!(c.import_queue.justification_import, Some(c.block_import));
}

#[test]
fn babe_light_node_wraps_block_import() {
    let c = BabeNode::build_light(node_config(), false);
    assert_eq!(c.import_queue.finality_proof_import, Some(c.import_queue.import.inner));
    assert_eq!(c.import_queue.import.link.client, c.client);
}

#[test]
fn no_rpc_extension_adds_no_methods() {
    let c = BabeNode::build_full(node_config(), true, &NoRpc::<BabeNode>::default());
    assert!(c.rpc_extensions.build(DenyUnsafe::No).methods.is_empty());
    assert!(c.params.offchain_storage && c.params.finality_proof_provider && !c.params.on_demand);
    let rpc: NoRpc<BabeNode> = NoRpc::default();
    let (builder, _setup) = rpc.rpc_extensions(
        c.client,
        c.transaction_pool,
        c.select_chain,
        &c.block_import_link,
        &c.import_queue_link,
    );
    assert!(builder.build(DenyUnsafe::No).methods.is_empty());
}

#[test]
fn ops_components_need_no_pool() {
    let c = BabeNode::build_ops();
    assert_eq!(c.client, ClientRef { shape: Shape::Full });
    assert_eq!(c.import_queue.justification_import.map(|b| b.select_chain.backend), Some(c.backend));
}

#[test]
fn noop_extension_builder_from_method_set() {
    let methods = MethodSet { methods: vec![RpcMethod { name: "ext_a".to_string(), is_unsafe: false }] };
    let builder = NoopRpcExtensionBuilder::from(methods);
    assert_eq!(builder.build(DenyUnsafe::Yes).methods[0].name, "ext_a");
}
