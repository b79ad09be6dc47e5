use storage_session::error::StorageError;
use storage_session::manager::{CreationOutcome, StartOutcome, StorageManager};
use storage_session::node::{create_node_config, LogLevel, NodeDebugInfo, NodeFacts, NodeHandle};
use storage_session::types::StorageConnectionStatus;

fn test_config() -> storage_session::node::NodeConfig {
    create_node_config(String::from("/tmp/node_data"))
}

fn fresh_handle() -> NodeHandle {
    NodeHandle {
        started: false,
        peer_id: Some(String::from("peer-abc")),
        version: Some(String::from("v1.2.3")),
        repo_path: Some(String::from("/tmp/node_data/repo")),
    }
}

fn started_facts() -> NodeFacts {
    NodeFacts {
        peer_id: Some(String::from("peer-abc")),
        version: Some(String::from("v1.2.3")),
        repo_path: Some(String::from("/tmp/node_data/repo")),
        connected_peers: 3,
    }
}

fn started_manager() -> StorageManager {
    let mut m = StorageManager::new(test_config());
    m.initialize_node(CreationOutcome::Created(fresh_handle()))
        .unwrap();
    m.start_node(StartOutcome::Started(started_facts())).unwrap();
    m
}

#[test]
fn default_status_is_disconnected() {
    assert_eq!(
        StorageConnectionStatus::default(),
        StorageConnectionStatus::Disconnected
    );
}

#[test]
fn config_defaults() {
    let c = test_config();
    assert_eq!(c.data_dir, "/tmp/node_data");
    assert_eq!(c.storage_quota, 1024 * 1024 * 1024);
    assert_eq!(c.max_peers, 50);
    assert_eq!(c.discovery_port, 8089);
    assert_eq!(c.log_level, LogLevel::Debug);
    assert!(!c.auto_connect);
}

#[test]
fn new_manager_is_disconnected() {
    let m = StorageManager::new(test_config());
    assert_eq!(m.get_status(), StorageConnectionStatus::Disconnected);
    assert_eq!(m.get_error(), None);
    assert!(m.node.is_none());
    let s = m.get_storage_info();
    assert_eq!(s.used_bytes, 0);
    assert_eq!(s.total_bytes, 1024 * 1024 * 1024);
    assert_eq!(s.available_bytes, 1024 * 1024 * 1024);
    assert_eq!(s.block_count, 0);
}

#[test]
fn initialize_parks_handle() {
    let mut m = StorageManager::new(test_config());
    assert!(m.initialize_node(CreationOutcome::Created(fresh_handle())).is_ok());
    assert_eq!(m.get_status(), StorageConnectionStatus::Initialized);
    let h = m.node.clone().unwrap();
    assert!(!h.started);
    assert_eq!(h.peer_id, Some(String::from("peer-abc")));
}

#[test]
fn initialize_twice_keeps_one_handle() {
    let mut m = StorageManager::new(test_config());
    m.initialize_node(CreationOutcome::Created(fresh_handle()))
        .unwrap();
    let first = m.node.clone();
    let other = NodeHandle {
        started: false,
        peer_id: Some(String::from("peer-other")),
        version: None,
        repo_path: None,
    };
    m.initialize_node(CreationOutcome::Created(other)).unwrap();
    assert_eq!(m.node, first);
    // Even a third initialization with nothing attempted short-circuits.
    m.initialize_node(CreationOutcome::NotAttempted).unwrap();
    assert_eq!(m.node, first);
    assert_eq!(m.get_status(), StorageConnectionStatus::Initialized);
}

#[test]
fn initialize_failure_leaves_state() {
    let mut m = StorageManager::new(test_config());
    let r = m.initialize_node(CreationOutcome::Failed(String::from("no disk")));
    assert_eq!(r, Err(StorageError::NodeCreation(String::from("no disk"))));
    assert_eq!(m.get_status(), StorageConnectionStatus::Disconnected);
    assert!(m.node.is_none());
    assert_eq!(m.get_error(), None);
}

#[test]
fn start_connects_and_populates_network_info() {
    let m = started_manager();
    assert_eq!(m.get_status(), StorageConnectionStatus::Connected);
    assert_eq!(m.get_error(), None);
    let info = m.get_network_info();
    assert_eq!(info.peer_id, Some(String::from("peer-abc")));
    assert_eq!(info.version, Some(String::from("v1.2.3")));
    assert_eq!(info.repo_path, Some(String::from("/tmp/node_data/repo")));
    assert_eq!(info.connected_peers, 3);
    assert_eq!(info.max_peers, 50);
}

#[test]
fn stop_clears_network_info() {
    let mut m = started_manager();
    m.stop_node().unwrap();
    assert_eq!(m.get_status(), StorageConnectionStatus::Initialized);
    let info = m.get_network_info();
    assert_eq!(info.peer_id, None);
    assert_eq!(info.version, None);
    assert_eq!(info.repo_path, None);
    assert_eq!(info.connected_peers, 0);
    assert_eq!(info.max_peers, 50);
    // The handle is parked, never dropped.
    let h = m.node.clone().unwrap();
    assert!(!h.started);
}

#[test]
fn start_failure_settles_at_error() {
    let mut m = StorageManager::new(test_config());
    m.initialize_node(CreationOutcome::Created(fresh_handle()))
        .unwrap();
    let r = m.start_node(StartOutcome::StartFailed(None, String::from("port in use")));
    assert_eq!(r, Err(StorageError::NodeStart(String::from("port in use"))));
    assert_eq!(m.get_status(), StorageConnectionStatus::Error);
    assert_eq!(
        m.get_error(),
        Some(String::from("Failed to start node: port in use"))
    );
    // The handle survived the failed attempt.
    assert!(m.node.is_some());
}

#[test]
fn start_failure_parks_fresh_handle() {
    let mut m = StorageManager::new(test_config());
    let r = m.start_node(StartOutcome::StartFailed(
        Some(fresh_handle()),
        String::from("boom"),
    ));
    assert!(matches!(r, Err(StorageError::NodeStart(_))));
    let h = m.node.clone().unwrap();
    assert!(!h.started);
}

#[test]
fn start_with_no_handle_errors() {
    let mut m = StorageManager::new(test_config());
    let r = m.start_node(StartOutcome::NoHandle);
    assert_eq!(r, Err(StorageError::NodeNotInitialized));
    assert_eq!(m.get_status(), StorageConnectionStatus::Error);
    assert_eq!(m.get_error(), Some(String::from("Node is not initialized")));
}

#[test]
fn stop_clears_stored_error() {
    let mut m = StorageManager::new(test_config());
    m.start_node(StartOutcome::CreationFailed(String::from("no binding")))
        .unwrap_err();
    assert_eq!(m.get_status(), StorageConnectionStatus::Error);
    m.stop_node().unwrap();
    assert_eq!(m.get_status(), StorageConnectionStatus::Initialized);
    assert_eq!(m.get_error(), None);
}

#[test]
fn status_stays_defined_across_sequences() {
    let defined = |s: StorageConnectionStatus| {
        matches!(
            s,
            StorageConnectionStatus::Disconnected
                | StorageConnectionStatus::Initialized
                | StorageConnectionStatus::Connecting
                | StorageConnectionStatus::Connected
                | StorageConnectionStatus::Error
        )
    };
    let mut m = StorageManager::new(test_config());
    assert!(defined(m.get_status()));
    let _ = m.start_node(StartOutcome::NoHandle);
    assert!(defined(m.get_status()));
    m.initialize_node(CreationOutcome::Created(fresh_handle()))
        .unwrap();
    assert!(defined(m.get_status()));
    m.mark_connecting();
    assert!(defined(m.get_status()));
    let _ = m.start_node(StartOutcome::StartFailed(None, String::from("x")));
    assert!(defined(m.get_status()));
    m.mark_connecting();
    m.start_node(StartOutcome::Started(started_facts())).unwrap();
    assert!(defined(m.get_status()));
    m.stop_node().unwrap();
    assert!(defined(m.get_status()));
    m.stop_node().unwrap();
    assert!(defined(m.get_status()));
}

#[test]
fn connecting_is_visible_and_always_resolves() {
    let mut m = StorageManager::new(test_config());
    m.initialize_node(CreationOutcome::Created(fresh_handle()))
        .unwrap();
    m.start_node(StartOutcome::StartFailed(None, String::from("x")))
        .unwrap_err();
    // The next attempt first clears the stale error and shows progress.
    m.mark_connecting();
    assert_eq!(m.get_status(), StorageConnectionStatus::Connecting);
    assert_eq!(m.get_error(), None);
    // The attempt's outcome resolves the status; it never rests at
    // `Connecting`.
    m.start_node(StartOutcome::Started(started_facts())).unwrap();
    assert_eq!(m.get_status(), StorageConnectionStatus::Connected);
}

#[test]
fn node_dependent_operations_fail_before_start() {
    let m = StorageManager::new(test_config());
    assert_eq!(m.get_node().unwrap_err(), StorageError::NodeNotInitialized);
    assert_eq!(
        m.connect_to_peer(&String::from("p"), &vec![String::from("a")], Ok(())),
        Err(StorageError::NodeNotInitialized)
    );
    assert_eq!(
        m.get_node_addresses(Ok(vec![])).unwrap_err(),
        StorageError::NodeNotInitialized
    );
    assert_eq!(
        m.get_node_info(None).unwrap_err(),
        StorageError::NodeNotInitialized
    );

    let mut m = StorageManager::new(test_config());
    m.initialize_node(CreationOutcome::Created(fresh_handle()))
        .unwrap();
    assert_eq!(
        m.connect_to_peer(&String::from("p"), &vec![], Ok(())),
        Err(StorageError::NodeNotStarted)
    );
    assert_eq!(
        m.get_node_addresses(Ok(vec![])).unwrap_err(),
        StorageError::NodeNotStarted
    );
}

#[test]
fn connect_maps_engine_outcomes() {
    let m = started_manager();
    assert_eq!(
        m.connect_to_peer(&String::from("p"), &vec![String::from("addr1")], Ok(())),
        Ok(())
    );
    assert_eq!(
        m.connect_to_peer(
            &String::from("p"),
            &vec![],
            Err(String::from("refused"))
        ),
        Err(StorageError::Configuration(String::from("refused")))
    );
}

#[test]
fn node_addresses_come_from_debug() {
    let m = started_manager();
    let addrs = vec![String::from("/ip4/1.2.3.4/tcp/8089")];
    assert_eq!(m.get_node_addresses(Ok(addrs.clone())), Ok(addrs));
    assert_eq!(
        m.get_node_addresses(Err(String::from("debug down"))),
        Err(StorageError::Configuration(String::from("debug down")))
    );
}

#[test]
fn node_info_reports_handle_and_debug() {
    let m = started_manager();
    let d = NodeDebugInfo {
        addrs: vec![String::from("/ip4/1.2.3.4/tcp/8089")],
    };
    let info = m.get_node_info(Some(Ok(d.clone()))).unwrap();
    assert_eq!(info.peer_id, Some(String::from("peer-abc")));
    assert_eq!(info.version, Some(String::from("v1.2.3")));
    assert_eq!(info.debug_info, Some(d));
    assert_eq!(
        m.get_node_info(Some(Err(String::from("bad")))),
        Err(StorageError::Configuration(String::from("bad")))
    );

    let mut m2 = StorageManager::new(test_config());
    m2.initialize_node(CreationOutcome::Created(fresh_handle()))
        .unwrap();
    let info = m2.get_node_info(None).unwrap();
    assert_eq!(info.debug_info, None);
    assert_eq!(info.peer_id, Some(String::from("peer-abc")));
}

#[test]
fn get_node_copies_the_handle() {
    let m = started_manager();
    let h = m.get_node().unwrap();
    assert!(h.started);
    assert!(h.is_started());
    assert_eq!(h.peer_id(), Some(String::from("peer-abc")));
    assert_eq!(h.version(), Some(String::from("v1.2.3")));
    assert_eq!(h.repo(), Some(String::from("/tmp/node_data/repo")));
}

#[test]
fn refresh_storage_info_keeps_quota_arithmetic() {
    let mut m = StorageManager::new(test_config());
    m.refresh_storage_info(1000, 4);
    let s = m.get_storage_info();
    assert_eq!(s.used_bytes, 1000);
    assert_eq!(s.total_bytes, 1024 * 1024 * 1024);
    assert_eq!(s.available_bytes, 1024 * 1024 * 1024 - 1000);
    assert_eq!(s.block_count, 4);
    // Use beyond the quota leaves nothing available, without wrapping.
    m.refresh_storage_info(u64::MAX, 9);
    let s = m.get_storage_info();
    assert_eq!(s.available_bytes, 0);
}
