use node_service::config::{
    Configuration, KeystoreConfig, OffchainWorkerConfig, PruningMode, Role, WasmExecutionMethod,
};
use node_service::rpc::{
    gen_handler, handler_from, internal_handler, rpc_context, system_info, Backing, DenyUnsafe, MethodSet,
    NoopRpcExtensionBuilder, Provider, RpcContext, RpcError, RpcExtensionBuilder, RpcMethod,
    RpcSurface,
};
use std::collections::BTreeSet;

fn set(methods: &[(&str, bool)]) -> MethodSet {
    MethodSet {
        methods: methods
            .iter()
            .map(|(n, u)| RpcMethod { name: n.to_string(), is_unsafe: *u })
            .collect(),
    }
}

fn node_config() -> Configuration {
    Configuration {
        role: Role::Full,
        keystore: KeystoreConfig::InMemory,
        database_path: "/db".to_string(),
        state_cache_size: 0,
        state_cache_child_ratio: None,
        pruning: PruningMode::ArchiveCanonical,
        wasm_method: WasmExecutionMethod::Interpreted,
        default_heap_pages: None,
        max_runtime_instances: 1,
        offchain_worker: OffchainWorkerConfig { enabled: false, indexing_enabled: true },
        prometheus_config: None,
        telemetry_endpoints: None,
        tracing_targets: None,
        dev_key_seed: None,
        node_name: "n".to_string(),
        impl_name: "impl".to_string(),
        impl_version: "2.0".to_string(),
        chain_name: "local".to_string(),
        protocol_id: None,
        boot_nodes: vec![],
        announce_block: false,
        internal_rpc: false,
    }
}

fn surface() -> RpcSurface {
    RpcSurface {
        state: set(&[("state_getStorage", false), ("state_queryStorage", true)]),
        child_state: set(&[("childstate_getStorage", false)]),
        chain: set(&[("chain_getBlock", false)]),
        offchain: set(&[("offchain_localStorageSet", true), ("offchain_localStorageGet", true)]),
        author: set(&[("author_submitExtrinsic", false), ("author_insertKey", true)]),
        system: set(&[("system_name", false), ("system_addReservedPeer", true)]),
    }
}

fn names(h: &node_service::rpc::RpcHandler) -> BTreeSet<String> {
    h.entries.iter().map(|e| e.name.clone()).collect()
}

#[test]
fn safe_table_is_strict_subset_of_unsafe_table() {
    let ext = NoopRpcExtensionBuilder(set(&[("ext_hello", false), ("ext_admin", true)]));
    let ctx = RpcContext { remote_handles: false, offchain_storage: true };
    let safe = gen_handler(DenyUnsafe::Yes, &node_config(), &surface(), ctx, &ext);
    let open = gen_handler(DenyUnsafe::No, &node_config(), &surface(), ctx, &ext);
    let (s, u) = (names(&safe), names(&open));
    assert!(s.is_subset(&u));
    assert!(s.len() < u.len());
    assert_eq!(u.len(), 12);
    assert_eq!(s.len(), 6);
}

#[test]
fn unsafe_only_method_is_not_found_in_safe_table() {
    let ext = NoopRpcExtensionBuilder(set(&[]));
    let ctx = RpcContext { remote_handles: false, offchain_storage: true };
    let safe = gen_handler(DenyUnsafe::Yes, &node_config(), &surface(), ctx, &ext);
    let open = gen_handler(DenyUnsafe::No, &node_config(), &surface(), ctx, &ext);
    let name = "author_insertKey".to_string();
    assert_eq!(safe.dispatch(&name).err(), Some(RpcError::MethodNotFound));
    let entry = open.dispatch(&name).unwrap();
    assert_eq!(entry.provider, Provider::Author);
    assert!(entry.is_unsafe);
    assert!(safe.dispatch(&"author_submitExtrinsic".to_string()).is_ok());
    assert_eq!(open.dispatch(&"nope".to_string()).err(), Some(RpcError::MethodNotFound));
}

#[test]
fn table_order_and_backing_follow_the_handles() {
    let ctx = RpcContext { remote_handles: true, offchain_storage: false };
    let h = handler_from(DenyUnsafe::No, system_info(&node_config()), &surface(), ctx, &set(&[("ext_x", false)]));
    let providers: Vec<Provider> = h.entries.iter().map(|e| e.provider).collect();
    assert_eq!(
        providers,
        vec![
            Provider::State(Backing::Light),
            Provider::State(Backing::Light),
            Provider::ChildState(Backing::Light),
            Provider::Chain(Backing::Light),
            Provider::Author,
            Provider::Author,
            Provider::System,
            Provider::System,
            Provider::Extension,
        ]
    );
    let full = handler_from(
        DenyUnsafe::No,
        system_info(&node_config()),
        &surface(),
        RpcContext { remote_handles: false, offchain_storage: false },
        &set(&[]),
    );
    assert_eq!(full.entries[0].provider, Provider::State(Backing::Full));
}

#[test]
fn offchain_methods_need_offchain_storage() {
    let with = handler_from(
        DenyUnsafe::No,
        system_info(&node_config()),
        &surface(),
        RpcContext { remote_handles: false, offchain_storage: true },
        &set(&[]),
    );
    assert!(with.dispatch(&"offchain_localStorageGet".to_string()).is_ok());
    let without = handler_from(
        DenyUnsafe::No,
        system_info(&node_config()),
        &surface(),
        RpcContext { remote_handles: false, offchain_storage: false },
        &set(&[]),
    );
    assert!(without.dispatch(&"offchain_localStorageGet".to_string()).is_err());
}

#[test]
fn noop_extension_builder_ignores_safety_level() {
    let ext = NoopRpcExtensionBuilder(set(&[("ext_a", true)]));
    assert_eq!(ext.build(DenyUnsafe::Yes).methods.len(), 1);
    assert_eq!(ext.build(DenyUnsafe::No).methods[0].name, "ext_a");
}

#[test]
fn rpc_context_needs_both_remote_handles() {
    assert!(rpc_context(true, true, false).remote_handles);
    assert!(!rpc_context(true, false, false).remote_handles);
    assert!(!rpc_context(false, true, true).remote_handles);
    assert!(rpc_context(false, false, true).offchain_storage);
}

#[test]
fn system_info_reports_names_and_version() {
    let c = node_config();
    let info = system_info(&c);
    assert_eq!(info.chain_name, "local");
    assert_eq!(info.impl_name, "impl");
    assert_eq!(info.impl_version, "2.0");
}

#[test]
fn handlers_report_system_info_and_internal_allows_unsafe() {
    let ext = NoopRpcExtensionBuilder(set(&[("ext_admin", true)]));
    let ctx = RpcContext { remote_handles: false, offchain_storage: false };
    let internal = internal_handler(&node_config(), &surface(), ctx, &ext);
    assert!(internal.dispatch(&"ext_admin".to_string()).is_ok());
    assert!(internal.dispatch(&"author_insertKey".to_string()).is_ok());
    assert_eq!(internal.system.chain_name, "local");
    let safe = gen_handler(DenyUnsafe::Yes, &node_config(), &surface(), ctx, &ext);
    assert!(safe.dispatch(&"ext_admin".to_string()).is_err());
    assert_eq!(safe.system.impl_version, "2.0");
}
