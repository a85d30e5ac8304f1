use alohopass_core::device_info::{
    compare_text, contains_text, DeviceInfo, DeviceLastSeenComparator, DeviceNameComparator, DeviceStatus,
    DeviceType, DeviceTypeComparator, LocalDeviceConfig, NetworkConfig, SyncPreferences,
};
use alohopass_core::discovery::{DeviceDiscovery, DiscoveryConfig};
use alohopass_core::p2p_connection::{P2PConnection, TransportState};
use alohopass_core::smart_sync::{ChangeType, DataChange};
use alohopass_core::sync::{SyncConfig, SyncEvent};
use alohopass_core::sync_manager::SyncManager;
use std::cmp::Ordering;

fn device(name: &str, kind: DeviceType, os: &str) -> DeviceInfo {
    DeviceInfo::from_network(
        name.to_string(),
        kind,
        os.to_string(),
        "1".to_string(),
        "1.0.0".to_string(),
        "192.168.1.9".to_string(),
        5000,
    )
}

#[test]
fn comparators_order_devices() {
    let a = device("alpha", DeviceType::Server, "linux");
    let b = device("beta", DeviceType::Desktop, "linux");
    assert_eq!(DeviceNameComparator::compare(&a, &b), Ordering::Less);
    assert_eq!(DeviceNameComparator::compare(&b, &a), Ordering::Greater);
    assert_eq!(DeviceNameComparator::compare(&a, &a), Ordering::Equal);
    assert_eq!(DeviceTypeComparator::compare(&a, &b), Ordering::Greater);
    let mut older = device("x", DeviceType::Mobile, "ios");
    older.last_seen = Some(10);
    let mut newer = device("y", DeviceType::Mobile, "ios");
    newer.last_seen = Some(20);
    assert_eq!(DeviceLastSeenComparator::compare_at(&newer, &older, 30), Ordering::Less);
    assert_eq!(DeviceLastSeenComparator::compare_at(&older, &newer, 30), Ordering::Greater);
    newer.last_seen = None;
    assert_eq!(DeviceLastSeenComparator::compare_at(&newer, &older, 30), Ordering::Less);
    assert_eq!(compare_text("ab", "abc"), Ordering::Less);
    assert_eq!(compare_text("b", "abc"), Ordering::Greater);
    assert_eq!(compare_text("é", "z"), "é".cmp("z"));
}

#[test]
fn text_search() {
    assert!(contains_text("office-pc", "pc"));
    assert!(contains_text("abc", ""));
    assert!(contains_text("", ""));
    assert!(!contains_text("", "a"));
    assert!(!contains_text("ab", "abc"));
    assert!(contains_text("mañana", "ña"));
}

#[test]
fn local_configuration_defaults() {
    let prefs = SyncPreferences::default();
    assert!(prefs.auto_sync && prefs.wifi_only && prefs.background_sync && prefs.notify_changes);
    assert_eq!(prefs.auto_sync_interval, 300);
    let net = NetworkConfig::default();
    assert_eq!(net.listen_port, 0);
    assert!(net.use_mdns && !net.use_upnp);
    assert!(net.allowed_interfaces.is_empty() && net.allowed_networks.is_empty());
    let local = LocalDeviceConfig::default();
    assert!(local.user_email.is_none());
    let me = DeviceInfo::new(
        "me".to_string(),
        DeviceType::Desktop,
        "linux".to_string(),
        "6".to_string(),
        "1.0.0".to_string(),
    );
    assert!(me.is_owner);
    assert!(!me.is_trusted);
    assert!(me.last_seen.is_some());
    assert!(matches!(me.status, DeviceStatus::Disconnected));
    assert_eq!(me.capabilities.min_app_version, "1.0.0");
    assert_eq!(me.connection_info(), None);
}

#[test]
fn manager_searches_discovered_devices() {
    let mut manager = SyncManager::new(SyncConfig::default());
    assert!(manager.search_devices("x").is_empty());
    assert!(manager.start());
    assert_eq!(manager.get_discovered_devices().len(), 0);
    assert!(manager.stop());
    let mut discovery = DeviceDiscovery::new(DiscoveryConfig::for_host(
        "h".to_string(),
        "Linux".to_string(),
        "1".to_string(),
    ));
    discovery.upsert_device(device("Kitchen-Tablet", DeviceType::Tablet, "Android"));
    discovery.upsert_device(device("desk", DeviceType::Desktop, "Windows"));
    assert_eq!(discovery.get_discovered_devices().len(), 2);
}

#[test]
fn sync_all_uses_the_linked_connections() {
    let mut manager = SyncManager::new(SyncConfig { auto_discovery: false, ..SyncConfig::default() });
    let mut linked = device("linked", DeviceType::Laptop, "linux");
    linked.status = DeviceStatus::Connected;
    let mut lonely = device("lonely", DeviceType::Laptop, "linux");
    lonely.status = DeviceStatus::Connected;
    let busy = device("busy", DeviceType::Laptop, "linux");
    manager.process_event(SyncEvent::DeviceConnected(linked.clone()));
    manager.process_event(SyncEvent::DeviceConnected(lonely.clone()));
    manager.process_event(SyncEvent::DeviceConnected(busy.clone()));
    manager
        .add_change(DataChange::new("e1".to_string(), ChangeType::Created, "me".to_string(), None, 1, None))
        .unwrap();
    let mut conn = P2PConnection::new_default();
    conn.connect(linked.clone()).unwrap();
    conn.on_transport_state(TransportState::Connected);
    let mut links = vec![conn];
    let results = manager.sync_all_devices(&mut links);
    assert_eq!(results.len(), 2);
    assert_eq!(results[0].device_id, linked.id);
    assert!(results[0].success);
    assert_eq!(results[0].elements_synced, 1);
    assert_eq!(results[1].device_id, lonely.id);
    assert!(!results[1].success);
    assert_eq!(links.len(), 1);
}

#[test]
fn elapsed_times() {
    let mut d = device("x", DeviceType::Mobile, "ios");
    d.last_seen = Some(100);
    assert_eq!(d.time_since_last_seen(160), 60);
    assert_eq!(d.time_since_last_sync(160), None);
    d.last_sync = Some(150);
    assert_eq!(d.time_since_last_sync(160), Some(10));
    d.last_seen = None;
    assert_eq!(d.time_since_last_seen(160), 0);
}
