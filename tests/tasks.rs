use node_service::tasks::{Resource, TaskKind, TaskRegistry};

#[test]
fn registry_records_spawned_tasks_in_order() {
    let mut registry = TaskRegistry::new();
    assert!(registry.spawn("informant".to_string()));
    assert!(registry.spawn_blocking("network-worker".to_string()));
    assert_eq!(registry.task_count(), 2);
    assert_eq!(registry.task(0).name, "informant");
    assert_eq!(registry.task(0).kind, TaskKind::Cooperative);
    assert_eq!(registry.task(1).kind, TaskKind::Blocking);
}

#[test]
fn registry_shutdown_cancels_and_releases_everything() {
    let mut registry = TaskRegistry::new();
    registry.spawn("a".to_string());
    registry.keep_alive(vec![Resource::BasePath, Resource::RpcServers]);
    let shutdown = registry.shutdown();
    assert_eq!(shutdown.cancelled.len(), 1);
    assert_eq!(shutdown.released, vec![Resource::BasePath, Resource::RpcServers]);
    assert!(!registry.is_running());
    assert_eq!(registry.task_count(), 0);
    assert_eq!(registry.keep_alive_count(), 0);
}

#[test]
fn registry_refuses_work_after_shutdown() {
    let mut registry = TaskRegistry::new();
    registry.shutdown();
    assert!(!registry.spawn("late".to_string()));
    assert!(!registry.spawn_blocking("late".to_string()));
    assert!(!registry.keep_alive(vec![Resource::Telemetry]));
    assert_eq!(registry.task_count(), 0);
    assert_eq!(registry.keep_alive_count(), 0);
}
