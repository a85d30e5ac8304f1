//! Types shared by the synchronisation components: results, statistics,
//! events and the top-level configuration.
use vstd::prelude::*;
use crate::device_info::DeviceInfo;

verus! {

/// Ways of reaching other devices.
#[derive(Debug, Clone, Copy, PartialEq, Eq, Structural)]
pub enum SyncMethod {
    /// Direct peer-to-peer connection.
    P2P,
    /// Through an encrypted cloud relay.
    CloudEncrypted,
    /// Peer-to-peer with the cloud as fallback.
    Hybrid,
    /// No sync beyond this device.
    LocalOnly,
}

impl Default for SyncMethod {
    fn default() -> (r: Self)
        ensures
            r == SyncMethod::Hybrid,
    {
        SyncMethod::Hybrid
    }
}

/// Strength of the encryption applied to synced data.
#[derive(Debug, Clone, Copy, PartialEq, Eq, Structural)]
pub enum EncryptionLevel {
    Basic,
    Standard,
    Military,
}

impl Default for EncryptionLevel {
    fn default() -> (r: Self)
        ensures
            r == EncryptionLevel::Military,
    {
        EncryptionLevel::Military
    }
}

/// Configuration of the synchronisation system.
#[derive(Debug, Clone)]
pub struct SyncConfig {
    pub auto_discovery: bool,
    pub auto_sync: bool,
    /// Seconds between automatic syncs.
    pub sync_interval: u64,
    pub max_devices: usize,
    pub encryption_level: EncryptionLevel,
    /// Networks on which sync is allowed; empty means all.
    pub allowed_networks: Vec<String>,
}

impl SyncConfig {
    /// Discovery and automatic sync on, every 300 s, up to 10 devices, any network.
    pub open spec fn is_default(&self) -> bool {
        &&& self.auto_discovery
        &&& self.auto_sync
        &&& self.sync_interval == 300
        &&& self.max_devices == 10
        &&& self.encryption_level == EncryptionLevel::Military
        &&& self.allowed_networks@.len() == 0
    }
}

impl Default for SyncConfig {
    fn default() -> (r: Self)
        ensures
            r.is_default(),
    {
        SyncConfig {
            auto_discovery: true,
            auto_sync: true,
            sync_interval: 300,
            max_devices: 10,
            encryption_level: EncryptionLevel::Military,
            allowed_networks: Vec::new(),
        }
    }
}

/// Running statistics of the synchronisation system.
#[derive(Debug, Clone)]
pub struct SyncStats {
    pub total_syncs: u64,
    pub successful_syncs: u64,
    pub failed_syncs: u64,
    /// Bytes (or, for change notifications, changes) reported as synced.
    pub total_data_synced: u64,
    /// Duration of the last sync, in milliseconds.
    pub last_sync_duration: Option<u64>,
    /// Ids of the devices synced with.
    pub devices_synced_with: Vec<String>,
}

impl SyncStats {
    /// All counters at zero, no device.
    pub open spec fn is_zero(&self) -> bool {
        &&& self.total_syncs == 0
        &&& self.successful_syncs == 0
        &&& self.failed_syncs == 0
        &&& self.total_data_synced == 0
        &&& self.last_sync_duration is None
        &&& self.devices_synced_with@.len() == 0
    }
}

impl Default for SyncStats {
    fn default() -> (r: Self)
        ensures
            r.is_zero(),
    {
        SyncStats {
            total_syncs: 0,
            successful_syncs: 0,
            failed_syncs: 0,
            total_data_synced: 0,
            last_sync_duration: None,
            devices_synced_with: Vec::new(),
        }
    }
}

/// Overall state of the synchronisation system. Times are Unix seconds.
#[derive(Debug, Clone)]
pub struct SyncStatus {
    pub is_enabled: bool,
    pub connected_devices: Vec<DeviceInfo>,
    pub last_sync: Option<i64>,
    pub sync_method: SyncMethod,
    pub auto_sync: bool,
}

impl SyncStatus {
    /// Enabled, hybrid, automatic, with no device and no sync yet.
    pub open spec fn is_default(&self) -> bool {
        &&& self.is_enabled
        &&& self.connected_devices@.len() == 0
        &&& self.last_sync is None
        &&& self.sync_method == SyncMethod::Hybrid
        &&& self.auto_sync
    }
}

impl Default for SyncStatus {
    fn default() -> (r: Self)
        ensures
            r.is_default(),
    {
        SyncStatus {
            is_enabled: true,
            connected_devices: Vec::new(),
            last_sync: None,
            sync_method: SyncMethod::Hybrid,
            auto_sync: true,
        }
    }
}

/// Events exchanged between the synchronisation components, in order.
#[derive(Debug, Clone)]
pub enum SyncEvent {
    DeviceDiscovered(DeviceInfo),
    DeviceConnected(DeviceInfo),
    DeviceDisconnected(DeviceInfo),
    SyncStarted(DeviceInfo),
    /// The device and the number of elements synced.
    SyncCompleted(DeviceInfo, u64),
    /// The device and the error message.
    SyncFailed(DeviceInfo, String),
    /// Number of local changes detected.
    ChangesDetected(u64),
    Heartbeat,
}

/// Outcome of one sync run with one device.
#[derive(Debug, Clone)]
pub struct SyncResult {
    pub success: bool,
    pub device_id: String,
    pub elements_synced: u64,
    /// Bytes transferred.
    pub data_size: u64,
    /// Milliseconds taken.
    pub duration: u64,
    pub error_message: Option<String>,
}

impl SyncResult {
    /// A successful run.
    pub fn success(device_id: String, elements_synced: u64, data_size: u64, duration: u64) -> (r: Self)
        ensures
            r.success,
            r.device_id@ == device_id@,
            r.elements_synced == elements_synced,
            r.data_size == data_size,
            r.duration == duration,
            r.error_message is None,
    {
        SyncResult { success: true, device_id, elements_synced, data_size, duration, error_message: None }
    }

    /// A failed run: nothing counted, the message kept.
    pub fn failure(device_id: String, error_message: String) -> (r: Self)
        ensures
            !r.success,
            r.device_id@ == device_id@,
            r.elements_synced == 0,
            r.data_size == 0,
            r.duration == 0,
            r.error_message matches Some(m) && m@ == error_message@,
    {
        SyncResult {
            success: false,
            device_id,
            elements_synced: 0,
            data_size: 0,
            duration: 0,
            error_message: Some(error_message),
        }
    }
}

} // verus!
