use alohopass_core::device_info::{DeviceInfo, DeviceStatus, DeviceType};
use alohopass_core::discovery::{detect_device_type, DeviceDiscovery, DiscoveryConfig};
use alohopass_core::p2p_connection::{
    ConnectionError, OutgoingFrame, P2PConfig, P2PConnection, P2PConnectionState, TransportState,
};
use alohopass_core::smart_sync::{
    resolution_for, ChangeType, ConflictResolution, ConflictResolutionStrategy, ConflictStatus, DataChange,
    SmartSync, SyncConfig, SyncError,
};
use alohopass_core::sync::{SyncConfig as ManagerConfig, SyncEvent};
use alohopass_core::sync_manager::{SyncManager, SystemInfo};

fn change(element: &str, kind: ChangeType, device: &str, version: u64) -> DataChange {
    DataChange::new(element.to_string(), kind, device.to_string(), Some(b"test data".to_vec()), version, None)
}

fn peer(name: &str) -> DeviceInfo {
    DeviceInfo::from_network(
        name.to_string(),
        DeviceType::Laptop,
        "linux".to_string(),
        "6.1".to_string(),
        "1.0.0".to_string(),
        "10.0.0.2".to_string(),
        4000,
    )
}

fn connected_link(device: &DeviceInfo) -> P2PConnection {
    let mut conn = P2PConnection::new_default();
    conn.connect(device.clone()).unwrap();
    conn.on_transport_state(TransportState::Connected);
    conn
}

#[test]
fn test_p2p_connection_creation() {
    let connection = P2PConnection::new_default();
    assert!(!connection.is_connected());
    assert!(matches!(connection.get_state(), P2PConnectionState::Disconnected));
}

#[test]
fn test_p2p_config_default() {
    let config = P2PConfig::default();
    assert_eq!(config.port, 0);
    assert!(!config.ice_servers.is_empty());
    assert!(config.encrypted);
}

#[test]
fn test_p2p_connection_state_display() {
    let state = P2PConnectionState::Connected;
    assert_eq!(state.emoji(), "🟢");
    assert_eq!(state.display_name(), "Conectado");
}

#[test]
fn test_smart_sync_creation() {
    let sync = SmartSync::new_default();
    assert_eq!(sync.get_pending_changes().len(), 0);
    assert_eq!(sync.get_synced_changes().len(), 0);
    assert_eq!(sync.get_conflicts().len(), 0);
}

#[test]
fn test_data_change_creation() {
    let change = DataChange::new(
        "test-element".to_string(),
        ChangeType::Created,
        "test-device".to_string(),
        Some(b"test data".to_vec()),
        1,
        None,
    );
    assert!(change.is_valid());
    assert_eq!(change.change_type, ChangeType::Created);
    assert_eq!(change.data_size(), 9);
}

#[test]
fn test_change_type_display() {
    let change_type = ChangeType::Modified;
    assert_eq!(change_type.emoji(), "✏️");
    assert_eq!(change_type.display_name(), "Modificado");
}

#[test]
fn test_add_change() {
    let mut sync = SmartSync::new_default();
    let change = DataChange::new(
        "test-element".to_string(),
        ChangeType::Created,
        "test-device".to_string(),
        Some(b"test data".to_vec()),
        1,
        None,
    );
    sync.add_change(change).unwrap();
    assert_eq!(sync.get_pending_changes().len(), 1);
}

#[test]
fn test_sync_manager_creation() {
    let config = ManagerConfig::default();
    let manager = SyncManager::new(config);
    assert!(!manager.is_running());
    assert_eq!(manager.get_connected_devices().len(), 0);
}

#[test]
fn test_sync_manager_default() {
    let manager = SyncManager::new_default();
    assert!(!manager.is_running());
    assert_eq!(manager.get_connected_devices().len(), 0);
}

#[test]
fn test_system_info_default() {
    let info = SystemInfo::default();
    assert!(!info.is_running);
    assert!(!info.is_enabled);
    assert_eq!(info.connected_devices, 0);
    assert_eq!(info.discovered_devices, 0);
}

#[test]
fn change_hash_is_sha256_of_data() {
    let c = change("e", ChangeType::Created, "d", 1);
    assert_eq!(c.current_hash, "916f0027a575074ce72a331777c3478d6513f786a591bd892da1a577bf2335f9");
    assert_eq!(c.id.len(), 36);
    let empty = DataChange::new("e".to_string(), ChangeType::Deleted, "d".to_string(), None, 1, None);
    assert_eq!(empty.current_hash, "");
    assert_eq!(empty.data_size(), 0);
}

#[test]
fn invalid_change_is_refused_and_pending_unchanged() {
    let mut sync = SmartSync::new_default();
    sync.add_change(change("e0", ChangeType::Created, "d", 1)).unwrap();
    assert_eq!(sync.add_change(change("", ChangeType::Created, "d", 1)), Err(SyncError::InvalidChange));
    assert_eq!(sync.add_change(change("e1", ChangeType::Created, "", 1)), Err(SyncError::InvalidChange));
    assert_eq!(sync.get_pending_changes().len(), 1);
}

#[test]
fn two_devices_modifying_one_element_conflict_once() {
    let mut sync = SmartSync::new_default();
    sync.add_change(change("e1", ChangeType::Modified, "device-a", 1)).unwrap();
    let remote = vec![change("e1", ChangeType::Modified, "device-b", 2)];
    let conflicts = sync.detect_conflicts(remote);
    assert_eq!(conflicts.len(), 1);
    assert_eq!(conflicts[0].element_id, "e1");
    assert_eq!(conflicts[0].status, ConflictStatus::Pending);
    assert_eq!(conflicts[0].conflicting_changes[0].source_device, "device-b");
    assert_eq!(conflicts[0].conflicting_changes[1].source_device, "device-a");
    assert_eq!(sync.get_sync_state().pending_conflicts_count, 1);
    let resolution = resolution_for(ConflictResolutionStrategy::LatestWins, &conflicts[0]).unwrap();
    sync.resolve_conflict(&conflicts[0].id, resolution).unwrap();
    let stored = sync.get_conflicts();
    assert_eq!(stored.len(), 1);
    assert_eq!(stored[0].status, ConflictStatus::Resolved);
    assert_eq!(stored[0].resolution, Some(resolution));
    assert_eq!(sync.get_sync_state().pending_conflicts_count, 0);
}

#[test]
fn conflict_rules() {
    let mut sync = SmartSync::new_default();
    sync.add_change(change("e1", ChangeType::Modified, "a", 1)).unwrap();
    sync.add_change(change("e2", ChangeType::Created, "a", 1)).unwrap();
    sync.add_change(change("e3", ChangeType::Created, "a", 1)).unwrap();
    let remote = vec![
        change("e1", ChangeType::Modified, "b", 1),
        change("e2", ChangeType::Deleted, "b", 1),
        change("e3", ChangeType::Deleted, "a", 1),
        change("e9", ChangeType::Deleted, "b", 5),
    ];
    let conflicts = sync.detect_conflicts(remote);
    assert_eq!(conflicts.len(), 1);
    assert_eq!(conflicts[0].element_id, "e2");
}

#[test]
fn conflict_detection_is_symmetric() {
    let left = vec![
        change("e1", ChangeType::Modified, "a", 1),
        change("e2", ChangeType::Created, "a", 1),
        change("e3", ChangeType::Moved, "a", 4),
    ];
    let right = vec![
        change("e1", ChangeType::Deleted, "b", 1),
        change("e2", ChangeType::Created, "b", 2),
        change("e4", ChangeType::Moved, "b", 4),
    ];
    let mut one = SmartSync::new_default();
    for c in left.iter() {
        one.add_change(c.clone()).unwrap();
    }
    let mut other = SmartSync::new_default();
    for c in right.iter() {
        other.add_change(c.clone()).unwrap();
    }
    let mut a: Vec<(String, String)> = one
        .detect_conflicts(right.clone())
        .iter()
        .map(|c| (c.conflicting_changes[1].id.clone(), c.conflicting_changes[0].id.clone()))
        .collect();
    let mut b: Vec<(String, String)> = other
        .detect_conflicts(left.clone())
        .iter()
        .map(|c| (c.conflicting_changes[0].id.clone(), c.conflicting_changes[1].id.clone()))
        .collect();
    a.sort();
    b.sort();
    assert_eq!(a.len(), 2);
    assert_eq!(a, b);
}

#[test]
fn strategies_pick_resolutions() {
    let mut sync = SmartSync::new_default();
    sync.add_change(change("e1", ChangeType::Modified, "a", 1)).unwrap();
    let conflicts = sync.detect_conflicts(vec![change("e1", ChangeType::Deleted, "b", 2)]);
    let c = &conflicts[0];
    assert_eq!(resolution_for(ConflictResolutionStrategy::LocalWins, c), Some(ConflictResolution::UseLocal));
    assert_eq!(resolution_for(ConflictResolutionStrategy::RemoteWins, c), Some(ConflictResolution::UseRemote));
    assert_eq!(resolution_for(ConflictResolutionStrategy::AutoMerge, c), Some(ConflictResolution::Merge));
    assert_eq!(resolution_for(ConflictResolutionStrategy::AskUser, c), None);
}

#[test]
fn sync_moves_everything_in_batches_then_is_a_no_op() {
    let device = peer("laptop");
    let mut conn = connected_link(&device);
    let mut sync = SmartSync::new(SyncConfig { max_batch_size: 100, ..SyncConfig::default() });
    for i in 0..250u64 {
        sync.add_change(change(&format!("e{}", i), ChangeType::Created, "local", i)).unwrap();
    }
    let first = sync.sync_with_device(&device, &mut conn);
    assert!(first.success);
    assert_eq!(first.device_id, device.id);
    assert_eq!(first.elements_synced, 250);
    assert_eq!(first.data_size, 250 * 9);
    assert_eq!(sync.get_pending_changes().len(), 0);
    assert_eq!(sync.get_synced_changes().len(), 250);
    assert_eq!(conn.take_outgoing().len(), 250);
    assert!(sync.get_sync_state().last_sync.is_some());
    let second = sync.sync_with_device(&device, &mut conn);
    assert!(second.success);
    assert_eq!(second.elements_synced, 0);
    assert_eq!(sync.get_synced_changes().len(), 250);
    assert_eq!(conn.take_outgoing().len(), 0);
}

#[test]
fn sync_without_connection_fails_and_keeps_pending() {
    let device = peer("laptop");
    let mut conn = P2PConnection::new_default();
    let mut sync = SmartSync::new_default();
    sync.add_change(change("e1", ChangeType::Created, "local", 1)).unwrap();
    let r = sync.sync_with_device(&device, &mut conn);
    assert!(!r.success);
    assert_eq!(r.elements_synced, 0);
    assert_eq!(r.error_message.as_deref(), Some("not connected"));
    assert_eq!(sync.get_pending_changes().len(), 1);
    assert_eq!(sync.get_synced_changes().len(), 0);
}

#[test]
fn empty_sync_succeeds_with_nothing() {
    let device = peer("laptop");
    let mut conn = P2PConnection::new_default();
    let mut sync = SmartSync::new_default();
    let r = sync.sync_with_device(&device, &mut conn);
    assert!(r.success);
    assert_eq!(r.elements_synced, 0);
    assert_eq!(r.data_size, 0);
}

#[test]
fn cleanup_keeps_recent_and_pending() {
    let device = peer("laptop");
    let mut conn = connected_link(&device);
    let mut sync = SmartSync::new_default();
    let mut old_change = change("e1", ChangeType::Modified, "a", 1);
    old_change.timestamp = 1_000;
    let mut new_change = change("e2", ChangeType::Modified, "a", 1);
    new_change.timestamp = 1_900;
    sync.add_change(old_change).unwrap();
    sync.add_change(new_change).unwrap();
    let mut r1 = change("e1", ChangeType::Deleted, "b", 2);
    r1.timestamp = 1_000;
    let conflicts = sync.detect_conflicts(vec![r1]);
    sync.sync_with_device(&device, &mut conn);
    sync.resolve_conflict(&conflicts[0].id, ConflictResolution::UseLocal).unwrap();
    assert_eq!(sync.get_synced_changes().len(), 2);
    sync.cleanup_changes_before(2_000, 300);
    assert_eq!(sync.get_synced_changes().len(), 1);
    sync.cleanup_changes_before(i64::MAX / 2, 300);
    assert_eq!(sync.get_synced_changes().len(), 0);
    assert_eq!(sync.get_conflicts().len(), 0);
}

#[test]
fn pending_conflicts_survive_cleanup() {
    let mut sync = SmartSync::new_default();
    sync.add_change(change("e1", ChangeType::Modified, "a", 1)).unwrap();
    sync.detect_conflicts(vec![change("e1", ChangeType::Deleted, "b", 2)]);
    sync.cleanup_changes_before(i64::MAX / 2, 1);
    assert_eq!(sync.get_conflicts().len(), 1);
}

#[test]
fn connection_state_machine() {
    let device = peer("phone");
    let mut conn = P2PConnection::new_default();
    assert_eq!(conn.send_data(vec![1]), Err(ConnectionError::NotConnected));
    assert_eq!(conn.process_answer("v=0"), Err(ConnectionError::NotConnected));
    conn.connect(device.clone()).unwrap();
    assert!(matches!(conn.get_state(), P2PConnectionState::Connecting));
    assert_eq!(conn.connect(device.clone()), Err(ConnectionError::AlreadyConnected));
    assert_eq!(conn.process_answer(""), Err(ConnectionError::NegotiationFailed));
    assert_eq!(conn.process_answer("v=0"), Ok(()));
    assert_eq!(conn.send_text("hi".to_string()), Err(ConnectionError::NotConnected));
    conn.on_transport_state(TransportState::Connected);
    assert!(conn.is_connected());
    conn.send_data(vec![1, 2]).unwrap();
    conn.send_text("hi".to_string()).unwrap();
    let frames = conn.take_outgoing();
    assert_eq!(frames.len(), 2);
    assert!(matches!(&frames[0], OutgoingFrame::Binary(b) if b == &vec![1u8, 2]));
    assert!(matches!(&frames[1], OutgoingFrame::Text(t) if t == "hi"));
    conn.receive_frame(vec![9]);
    assert_eq!(conn.get_stats().pending_data_count, 1);
    assert_eq!(conn.get_pending_data(), vec![vec![9u8]]);
    assert_eq!(conn.get_pending_data().len(), 0);
    conn.on_transport_state(TransportState::Failed);
    assert!(matches!(conn.get_state(), P2PConnectionState::Error(ref m) if m == "Conexión falló"));
    conn.disconnect();
    assert!(matches!(conn.get_state(), P2PConnectionState::Disconnected));
    assert!(conn.get_remote_device().is_none());
}

#[test]
fn connection_attempt_times_out() {
    let mut conn = P2PConnection::new_default();
    assert!(!conn.check_timeout(i64::MAX));
    conn.connect(peer("phone")).unwrap();
    assert!(conn.check_timeout(i64::MAX / 2));
    assert!(matches!(conn.get_state(), P2PConnectionState::Error(ref m) if m == "connection timed out"));
    assert_eq!(ConnectionError::ConnectionTimeout.message(), "connection timed out");
}

#[test]
fn peer_record_without_os_version_reads_unknown() {
    let mut discovery = DeviceDiscovery::new(DiscoveryConfig::for_host(
        "my-desktop".to_string(),
        "Linux".to_string(),
        "1.0.0".to_string(),
    ));
    let props = vec![
        ("device_type".to_string(), "Tablet".to_string()),
        ("os".to_string(), "Android".to_string()),
        ("app_version".to_string(), "1.2.0".to_string()),
        ("device_name".to_string(), "tab".to_string()),
    ];
    let d = discovery.handle_service_resolved(&props);
    assert_eq!(d.os_version, "Unknown");
    assert_eq!(d.os, "Android");
    assert_eq!(d.device_type, DeviceType::Tablet);
    assert_eq!(d.name, "tab");
    assert!(!d.is_owner);
    let all = discovery.get_discovered_devices();
    assert_eq!(all.len(), 1);
    assert_eq!(all[0].id, d.id);
}

#[test]
fn unreadable_peer_attributes_default() {
    let mut discovery = DeviceDiscovery::new(DiscoveryConfig::for_host(
        "host".to_string(),
        "Linux".to_string(),
        "1.0.0".to_string(),
    ));
    let props = vec![("device_type".to_string(), "Toaster".to_string())];
    let d = discovery.handle_service_resolved(&props);
    assert_eq!(d.device_type, DeviceType::Unknown);
    assert_eq!(d.name, "Unknown");
    assert_eq!(d.os, "Unknown");
    assert_eq!(d.app_version, "Unknown");
}

#[test]
fn announcement_lists_the_attributes() {
    let discovery = DeviceDiscovery::new(DiscoveryConfig::for_host(
        "Bobs-MacBook".to_string(),
        "Mac OS".to_string(),
        "2.0.0".to_string(),
    ));
    let props = discovery.announcement();
    assert_eq!(props[0], ("device_type".to_string(), "Laptop".to_string()));
    assert_eq!(props[4], ("device_name".to_string(), "Bobs-MacBook".to_string()));
}

#[test]
fn device_type_from_host_name() {
    assert_eq!(detect_device_type("Bobs-MacBook-Pro"), DeviceType::Laptop);
    assert_eq!(detect_device_type("OFFICE-PC"), DeviceType::Desktop);
    assert_eq!(detect_device_type("my-phone"), DeviceType::Mobile);
    assert_eq!(detect_device_type("tablet7"), DeviceType::Tablet);
    assert_eq!(detect_device_type("server01"), DeviceType::Unknown);
    assert_eq!(DeviceType::parse("Server"), Some(DeviceType::Server));
    assert_eq!(DeviceType::parse("server"), None);
}

#[test]
fn discovery_cleanup_keeps_devices_without_time() {
    let mut discovery = DeviceDiscovery::new(DiscoveryConfig::for_host(
        "h".to_string(),
        "Linux".to_string(),
        "1".to_string(),
    ));
    let mut stale = peer("stale");
    stale.last_seen = Some(0);
    let mut unknown = peer("unknown");
    unknown.last_seen = None;
    discovery.upsert_device(stale);
    discovery.upsert_device(unknown);
    discovery.cleanup_devices_before(1_000, 300);
    let left = discovery.get_discovered_devices();
    assert_eq!(left.len(), 1);
    assert_eq!(left[0].name, "unknown");
    assert!(discovery.start());
    assert!(!discovery.start());
    assert!(discovery.stop());
    assert!(!discovery.stop());
}

#[test]
fn manager_applies_lifecycle_events() {
    let mut manager = SyncManager::new(ManagerConfig { auto_discovery: false, ..ManagerConfig::default() });
    let device = peer("laptop");
    manager.process_event(SyncEvent::DeviceConnected(device.clone()));
    assert_eq!(manager.get_connected_devices().len(), 1);
    manager.process_event(SyncEvent::SyncStarted(device.clone()));
    assert!(manager.get_connected_devices()[0].status.is_syncing());
    manager.process_event(SyncEvent::SyncCompleted(device.clone(), 3));
    let d = &manager.get_connected_devices()[0];
    assert!(d.status.is_connected());
    assert!(d.last_sync.is_some());
    manager.process_event(SyncEvent::SyncFailed(device.clone(), "boom".to_string()));
    assert!(matches!(&manager.get_connected_devices()[0].status, DeviceStatus::Error(m) if m == "boom"));
    manager.process_event(SyncEvent::ChangesDetected(4));
    manager.process_event(SyncEvent::Heartbeat);
    let stats = manager.get_stats();
    assert_eq!(stats.total_syncs, 2);
    assert_eq!(stats.successful_syncs, 1);
    assert_eq!(stats.failed_syncs, 1);
    assert_eq!(stats.total_data_synced, 4);
    assert_eq!(stats.devices_synced_with, vec![device.id.clone()]);
    manager.process_event(SyncEvent::DeviceDisconnected(device.clone()));
    assert_eq!(manager.get_connected_devices().len(), 0);
    assert_eq!(manager.get_status().connected_devices.len(), 0);
}

#[test]
fn manager_cleanup_drops_devices_without_time() {
    let mut manager = SyncManager::new(ManagerConfig { auto_discovery: false, ..ManagerConfig::default() });
    let mut fresh = peer("fresh");
    fresh.last_seen = Some(1_000);
    let mut unknown = peer("unknown");
    unknown.last_seen = None;
    let mut stale = peer("stale");
    stale.last_seen = Some(0);
    manager.process_event(SyncEvent::DeviceConnected(fresh));
    manager.process_event(SyncEvent::DeviceConnected(unknown));
    manager.process_event(SyncEvent::DeviceConnected(stale));
    manager.cleanup_at(1_000);
    let left = manager.get_connected_devices();
    assert_eq!(left.len(), 1);
    assert_eq!(left[0].name, "fresh");
}

#[test]
fn manager_start_stop_and_sync() {
    let mut manager = SyncManager::new(ManagerConfig { auto_discovery: false, ..ManagerConfig::default() });
    assert!(manager.start());
    assert!(!manager.start());
    assert!(manager.is_running());
    assert!(manager.get_system_info().is_enabled);
    let device = peer("laptop");
    manager.process_event(SyncEvent::DeviceConnected(device.clone()));
    manager.add_change(change("e1", ChangeType::Created, "local", 1)).unwrap();
    assert_eq!(manager.add_change(change("", ChangeType::Created, "local", 1)), Err(SyncError::InvalidChange));
    let mut conn = connected_link(&device);
    let r = manager.sync_with_device(&device.id, &mut conn);
    assert!(r.success);
    assert_eq!(r.elements_synced, 1);
    assert!(manager.get_connected_devices()[0].status.is_connected());
    let missing = manager.sync_with_device("nobody", &mut conn);
    assert!(!missing.success);
    let info = manager.get_system_info();
    assert_eq!(info.successful_syncs, 1);
    assert_eq!(info.connected_devices, 1);
    assert!(manager.stop());
    assert!(!manager.stop());
    assert!(!manager.get_system_info().is_enabled);
}

#[test]
fn device_info_text() {
    let mut d = peer("laptop");
    assert_eq!(d.connection_info(), Some("10.0.0.2:4000".to_string()));
    d.port = None;
    assert_eq!(d.connection_info(), Some("10.0.0.2".to_string()));
    d.ip_address = None;
    d.port = Some(7);
    assert_eq!(d.connection_info(), Some("Puerto 7".to_string()));
    d.port = None;
    assert_eq!(d.connection_info(), None);
    assert_eq!(d.display_name(), "💻 laptop (Portátil)");
    assert_eq!(d.display_status(), "🔴 Desconectado");
    d.add_metadata("k".to_string(), "v1".to_string());
    d.add_metadata("k".to_string(), "v2".to_string());
    assert_eq!(d.get_metadata("k"), Some(&"v2".to_string()));
    assert_eq!(d.get_metadata("x"), None);
    assert!(!d.is_available_for_sync());
    d.update_status(DeviceStatus::Connected);
    assert!(d.is_available_for_sync());
    assert!(d.is_same_device(&peer("laptop")));
    assert_eq!(DeviceType::Server.to_string(), "Server");
}

#[test]
fn batch_steps_keep_earlier_batches_synced() {
    let device = peer("laptop");
    let mut conn = connected_link(&device);
    let mut sync = SmartSync::new(SyncConfig { max_batch_size: 2, ..SyncConfig::default() });
    for i in 0..5u64 {
        sync.add_change(change(&format!("e{}", i), ChangeType::Created, "local", i)).unwrap();
    }
    let first = sync.sync_next_batch(&device, &mut conn);
    assert!(first.success);
    assert_eq!(first.elements_synced, 2);
    assert_eq!(first.data_size, 18);
    conn.on_transport_state(TransportState::Disconnected);
    let second = sync.sync_next_batch(&device, &mut conn);
    assert!(!second.success);
    assert_eq!(second.error_message.as_deref(), Some("not connected"));
    assert_eq!(sync.get_synced_changes().len(), 2);
    assert_eq!(sync.get_pending_changes().len(), 3);
    assert_eq!(sync.get_synced_changes()[0].element_id, "e0");
    assert_eq!(conn.take_outgoing().len(), 2);
}

#[test]
fn manager_stores_resolved_peer_records() {
    let mut manager = SyncManager::new_default();
    let props = vec![("device_name".to_string(), "peer".to_string())];
    assert!(manager.handle_service_resolved(&props).is_none());
    assert!(manager.start());
    let d = manager.handle_service_resolved(&props).unwrap();
    assert_eq!(d.name, "peer");
    assert_eq!(d.os_version, "Unknown");
    let found = manager.get_discovered_devices();
    assert_eq!(found.len(), 1);
    assert_eq!(found[0].id, d.id);
    assert_eq!(manager.get_stats().total_syncs, 0);
    manager.process_event(SyncEvent::DeviceDiscovered(d));
    assert_eq!(manager.get_stats().total_syncs, 0);
    assert!(manager.discovery_config().is_some());
    assert!(manager.announcement().is_some());
    manager.stop();
}
