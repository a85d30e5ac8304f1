//! The orchestrator: owns discovery, the change engine, the connected-device
//! registry and the statistics, and applies sync lifecycle events to them.
//!
//! Background work (announcing, listening, the periodic cleanup, delivering
//! events in order) runs outside; it calls the methods here.
use vstd::prelude::*;
use crate::clock::now_unix_seconds;
use crate::device_info::{device_type_name, DeviceInfo, DeviceStatus, DeviceStatusView};
use crate::discovery::{
    clone_devices, drawn_from, kept_discovered, lemma_push_fresh, lemma_without_id, record_from,
    remove_by_id, unique_ids, without_id, DeviceDiscovery, DiscoveryConfig, DISCOVERY_MAX_AGE,
};
use crate::host::{has_infix, lower_of, lowercase};
use crate::p2p_connection::P2PConnection;
use crate::smart_sync::{
    recent, sat_add, sync_outcome, ConflictResolution, DataChange, SmartSync, SmartSyncView, SyncConflict,
    SyncError,
};
use crate::sync::{SyncConfig, SyncEvent, SyncMethod, SyncResult, SyncStats, SyncStatus};

verus! {

/// Seconds after which a connected device that was not heard of is dropped.
pub const CONNECTED_MAX_AGE: u64 = 600;

/// Seconds between two periodic cleanups.
pub const CLEANUP_INTERVAL: u64 = 60;

/// A counter increased by one, stopping at the largest `u64`.
pub open spec fn bump(x: u64) -> u64 {
    if x < u64::MAX {
        (x + 1) as u64
    } else {
        x
    }
}

fn bump_exec(x: u64) -> (r: u64)
    ensures
        r == bump(x),
{
    if x < u64::MAX {
        x + 1
    } else {
        x
    }
}

/// The lifecycle events that change a connected device's status.
#[derive(Debug, Clone, Copy, PartialEq, Eq, Structural)]
pub enum StatusChange {
    Started,
    Completed,
    Failed,
}

/// How a connected device record changes on a lifecycle event: `Syncing` when
/// a sync starts, `Connected` and a sync time when it completes, `Error` with
/// the message when it fails.
pub open spec fn status_changed(before: DeviceInfo, after: DeviceInfo, change: StatusChange, message: Seq<char>) -> bool {
    &&& after.same_identity(&before)
    &&& match change {
        StatusChange::Started => after.status@ == DeviceStatusView::Syncing && after.last_seen is Some
            && after.last_sync == before.last_sync,
        StatusChange::Completed => after.status@ == DeviceStatusView::Connected && after.last_sync is Some
            && after.last_seen == before.last_seen,
        StatusChange::Failed => after.status@ == DeviceStatusView::Error(message) && after.last_seen is Some
            && after.last_sync == before.last_sync,
    }
}

/// `after` is `before` with every device of id `id` changed by `change`.
pub open spec fn devices_changed(
    before: Seq<DeviceInfo>,
    after: Seq<DeviceInfo>,
    id: Seq<char>,
    change: StatusChange,
    message: Seq<char>,
) -> bool {
    &&& after.len() == before.len()
    &&& forall|k: int| 0 <= k < before.len() ==> if (#[trigger] before[k]).id@ == id {
        status_changed(before[k], after[k], change, message)
    } else {
        after[k] == before[k]
    }
}

/// Changes the status of every device of id `id` in a list.
fn change_devices(list: &mut Vec<DeviceInfo>, id: &String, change: StatusChange, message: &String)
    ensures
        devices_changed(old(list)@, final(list)@, id@, change, message@),
        unique_ids(old(list)@) ==> unique_ids(final(list)@),
{
    let ghost l0 = list@;
    let mut i: usize = 0;
    while i < list.len()
        invariant
            i <= list@.len(),
            list@.len() == l0.len(),
            forall|k: int| 0 <= k < i ==> if (#[trigger] l0[k]).id@ == id@ {
                status_changed(l0[k], list@[k], change, message@)
            } else {
                list@[k] == l0[k]
            },
            forall|k: int| i <= k < l0.len() ==> list@[k] == l0[k],
        decreases l0.len() - i,
    {
        if list[i].id == *id {
            let mut d = list[i].clone();
            match change {
                StatusChange::Started => d.update_status(DeviceStatus::Syncing),
                StatusChange::Completed => d.mark_synced(),
                StatusChange::Failed => d.update_status(DeviceStatus::Error(message.clone())),
            }
            list.set(i, d);
        }
        i = i + 1;
    }
    assert(forall|k: int| 0 <= k < l0.len() ==> (#[trigger] list@[k]).id@ == l0[k].id@);
}

/// Whether a device seen at `last_seen` is kept by the manager's cleanup at
/// `now`: a device with no time is dropped.
pub open spec fn fresh_for_manager(last_seen: Option<i64>, now: i64, max_age: u64) -> bool {
    match last_seen {
        Some(t) => now - t < max_age,
        None => false,
    }
}

/// The connected devices kept by the manager's cleanup, in order.
pub open spec fn kept_connected(s: Seq<DeviceInfo>, now: i64, max_age: u64) -> Seq<DeviceInfo>
    decreases s.len(),
{
    if s.len() == 0 {
        s
    } else {
        let prev = kept_connected(s.drop_last(), now, max_age);
        if fresh_for_manager(s.last().last_seen, now, max_age) {
            prev.push(s.last())
        } else {
            prev
        }
    }
}

/// Whether a device matches a lowercased search query: by name, OS or type name.
pub open spec fn matches_query(d: DeviceInfo, lower_query: Seq<char>) -> bool {
    has_infix(lower_of(d.name@), lower_query) || has_infix(lower_of(d.os@), lower_query)
        || has_infix(lower_of(device_type_name(d.device_type)), lower_query)
}

/// The devices that match a lowercased query, in order.
pub open spec fn matching(s: Seq<DeviceInfo>, lower_query: Seq<char>) -> Seq<DeviceInfo>
    decreases s.len(),
{
    if s.len() == 0 {
        s
    } else {
        let prev = matching(s.drop_last(), lower_query);
        if matches_query(s.last(), lower_query) {
            prev.push(s.last())
        } else {
            prev
        }
    }
}

/// Whether a device matches a query that is already lowercase.
pub fn device_matches(d: &DeviceInfo, lower_query: &str) -> (r: bool)
    ensures
        r == matches_query(*d, lower_query@),
{
    let name = lowercase(d.name.as_str());
    if crate::device_info::contains_text(name.as_str(), lower_query) {
        return true;
    }
    let os = lowercase(d.os.as_str());
    if crate::device_info::contains_text(os.as_str(), lower_query) {
        return true;
    }
    let kind_text = lowercase(d.device_type.as_str());
    crate::device_info::contains_text(kind_text.as_str(), lower_query)
}

/// Copies of the devices of a list that match a lowercased query, in order.
pub fn filter_devices(v: &Vec<DeviceInfo>, lower_query: &str) -> (r: Vec<DeviceInfo>)
    ensures
        r@.len() == matching(v@, lower_query@).len(),
        forall|i: int| 0 <= i < r@.len() ==> (#[trigger] r@[i]).same_as(&matching(v@, lower_query@)[i]),
{
    let mut out: Vec<DeviceInfo> = Vec::new();
    let mut i: usize = 0;
    while i < v.len()
        invariant
            i <= v@.len(),
            out@.len() == matching(v@.take(i as int), lower_query@).len(),
            forall|k: int| 0 <= k < out@.len() ==> (#[trigger] out@[k]).same_as(&matching(v@.take(i as int), lower_query@)[k]),
        decreases v@.len() - i,
    {
        proof {
            assert(v@.take(i + 1).drop_last() =~= v@.take(i as int));
            assert(v@.take(i + 1).last() == v@[i as int]);
        }
        if device_matches(&v[i], lower_query) {
            out.push(v[i].clone());
        }
        i = i + 1;
    }
    proof {
        assert(v@.take(v@.len() as int) =~= v@);
    }
    out
}

/// A summary of the synchronisation system. Times are Unix seconds.
#[derive(Debug, Clone)]
pub struct SystemInfo {
    pub is_running: bool,
    pub is_enabled: bool,
    pub sync_method: SyncMethod,
    pub auto_sync: bool,
    pub auto_discovery: bool,
    pub connected_devices: usize,
    pub discovered_devices: usize,
    pub total_syncs: u64,
    pub successful_syncs: u64,
    pub failed_syncs: u64,
    pub last_sync: Option<i64>,
}

impl Default for SystemInfo {
    fn default() -> (r: Self)
        ensures
            !r.is_running,
            !r.is_enabled,
            r.sync_method == SyncMethod::Hybrid,
            r.auto_sync,
            r.auto_discovery,
            r.connected_devices == 0,
            r.discovered_devices == 0,
            r.total_syncs == 0,
            r.successful_syncs == 0,
            r.failed_syncs == 0,
            r.last_sync is None,
    {
        SystemInfo {
            is_running: false,
            is_enabled: false,
            sync_method: SyncMethod::Hybrid,
            auto_sync: true,
            auto_discovery: true,
            connected_devices: 0,
            discovered_devices: 0,
            total_syncs: 0,
            successful_syncs: 0,
            failed_syncs: 0,
            last_sync: None,
        }
    }
}

/// A copy of a configuration.
fn clone_config(c: &SyncConfig) -> (r: SyncConfig)
    ensures
        r.auto_discovery == c.auto_discovery,
        r.auto_sync == c.auto_sync,
        r.sync_interval == c.sync_interval,
        r.max_devices == c.max_devices,
        r.encryption_level == c.encryption_level,
        r.allowed_networks@.len() == c.allowed_networks@.len(),
        forall|i: int| 0 <= i < c.allowed_networks@.len() ==> (#[trigger] r.allowed_networks@[i])@ == c.allowed_networks@[i]@,
{
    let mut nets: Vec<String> = Vec::new();
    let mut i: usize = 0;
    while i < c.allowed_networks.len()
        invariant
            i <= c.allowed_networks@.len(),
            nets@.len() == i,
            forall|k: int| 0 <= k < i ==> (#[trigger] nets@[k])@ == c.allowed_networks@[k]@,
        decreases c.allowed_networks@.len() - i,
    {
        nets.push(c.allowed_networks[i].clone());
        i = i + 1;
    }
    SyncConfig {
        auto_discovery: c.auto_discovery,
        auto_sync: c.auto_sync,
        sync_interval: c.sync_interval,
        max_devices: c.max_devices,
        encryption_level: c.encryption_level,
        allowed_networks: nets,
    }
}

/// A copy of statistics.
fn clone_stats(s: &SyncStats) -> (r: SyncStats)
    ensures
        r.total_syncs == s.total_syncs,
        r.successful_syncs == s.successful_syncs,
        r.failed_syncs == s.failed_syncs,
        r.total_data_synced == s.total_data_synced,
        r.last_sync_duration == s.last_sync_duration,
        r.devices_synced_with@.len() == s.devices_synced_with@.len(),
        forall|i: int| 0 <= i < s.devices_synced_with@.len() ==> (#[trigger] r.devices_synced_with@[i])@ == s.devices_synced_with@[i]@,
{
    let mut ids: Vec<String> = Vec::new();
    let mut i: usize = 0;
    while i < s.devices_synced_with.len()
        invariant
            i <= s.devices_synced_with@.len(),
            ids@.len() == i,
            forall|k: int| 0 <= k < i ==> (#[trigger] ids@[k])@ == s.devices_synced_with@[k]@,
        decreases s.devices_synced_with@.len() - i,
    {
        ids.push(s.devices_synced_with[i].clone());
        i = i + 1;
    }
    SyncStats {
        total_syncs: s.total_syncs,
        successful_syncs: s.successful_syncs,
        failed_syncs: s.failed_syncs,
        total_data_synced: s.total_data_synced,
        last_sync_duration: s.last_sync_duration,
        devices_synced_with: ids,
    }
}

/// The synchronisation orchestrator.
pub struct SyncManager {
    status: SyncStatus,
    config: SyncConfig,
    discovery: Option<DeviceDiscovery>,
    connected_devices: Vec<DeviceInfo>,
    stats: SyncStats,
    smart_sync: SmartSync,
    is_running: bool,
}

impl SyncManager {
    /// The system runs.
    pub closed spec fn running(&self) -> bool {
        self.is_running
    }

    /// The registry of connected devices, in order of connection.
    pub closed spec fn connected(&self) -> Seq<DeviceInfo> {
        self.connected_devices@
    }

    /// The statistics.
    pub closed spec fn stats_spec(&self) -> SyncStats {
        self.stats
    }

    /// The overall status.
    pub closed spec fn status_spec(&self) -> SyncStatus {
        self.status
    }

    /// The configuration.
    pub closed spec fn config_spec(&self) -> SyncConfig {
        self.config
    }

    /// Discovery, while it exists.
    pub closed spec fn discovery_spec(&self) -> Option<DeviceDiscovery> {
        self.discovery
    }

    /// The change engine.
    pub closed spec fn engine(&self) -> SmartSync {
        self.smart_sync
    }

    /// The change engine is usable, and the registry and the discovered set
    /// are keyed by device id.
    pub closed spec fn wf(&self) -> bool {
        &&& self.smart_sync.wf()
        &&& unique_ids(self.connected_devices@)
        &&& (self.discovery matches Some(d) ==> d.wf())
    }

    /// Everything but the statistics is unchanged.
    pub open spec fn only_stats_changed(&self, o: &SyncManager) -> bool {
        &&& self.running() == o.running()
        &&& self.connected() == o.connected()
        &&& self.status_spec() == o.status_spec()
        &&& self.config_spec() == o.config_spec()
        &&& self.discovery_spec() == o.discovery_spec()
        &&& self.engine() == o.engine()
    }

    /// A stopped manager with no device, zero statistics, the default status
    /// and an empty change engine.
    pub fn new(config: SyncConfig) -> (r: Self)
        ensures
            r.wf(),
            !r.running(),
            r.connected().len() == 0,
            r.stats_spec().is_zero(),
            r.status_spec().is_default(),
            r.config_spec() == config,
            r.discovery_spec() is None,
            r.engine()@.pending.len() == 0,
            r.engine()@.synced.len() == 0,
            r.engine()@.conflicts.len() == 0,
    {
        SyncManager {
            status: SyncStatus::default(),
            config,
            discovery: None,
            connected_devices: Vec::new(),
            stats: SyncStats::default(),
            smart_sync: SmartSync::new_default(),
            is_running: false,
        }
    }

    /// A stopped manager with the default configuration.
    pub fn new_default() -> (r: Self)
        ensures
            r.wf(),
            !r.running(),
            r.connected().len() == 0,
            r.stats_spec().is_zero(),
            r.status_spec().is_default(),
            r.config_spec().is_default(),
            r.discovery_spec() is None,
    {
        SyncManager::new(SyncConfig::default())
    }

    /// Starts the system: marks it running and enabled, and when automatic
    /// discovery is configured creates discovery for this host and starts it.
    /// Returns whether it was stopped, that is whether the background work must
    /// now be brought up; starting a running system does nothing.
    pub fn start(&mut self) -> (r: bool)
        requires
            old(self).wf(),
        ensures
            final(self).wf(),
            r == !old(self).running(),
            final(self).running(),
            !r ==> *final(self) == *old(self),
            r ==> final(self).status_spec().is_enabled,
            r ==> (final(self).discovery_spec() is Some <==> old(self).config_spec().auto_discovery || old(self).discovery_spec() is Some),
            r && old(self).config_spec().auto_discovery ==> (final(self).discovery_spec() matches Some(d) && d.running()),
            final(self).connected() == old(self).connected(),
            final(self).engine() == old(self).engine(),
            final(self).stats_spec() == old(self).stats_spec(),
    {
        if self.is_running {
            return false;
        }
        if self.config.auto_discovery {
            let mut discovery = DeviceDiscovery::new(DiscoveryConfig::default());
            discovery.start();
            self.discovery = Some(discovery);
        }
        self.is_running = true;
        self.status.is_enabled = true;
        true
    }

    /// Stops the system: discovery is stopped and released, the system is
    /// neither running nor enabled. Returns whether it was running, that is
    /// whether background work must now be torn down; stopping a stopped
    /// system does nothing.
    pub fn stop(&mut self) -> (r: bool)
        requires
            old(self).wf(),
        ensures
            final(self).wf(),
            r == old(self).running(),
            !final(self).running(),
            !r ==> *final(self) == *old(self),
            r ==> !final(self).status_spec().is_enabled && final(self).discovery_spec() is None,
            final(self).connected() == old(self).connected(),
            final(self).engine() == old(self).engine(),
            final(self).stats_spec() == old(self).stats_spec(),
    {
        if !self.is_running {
            return false;
        }
        match &mut self.discovery {
            Some(d) => {
                d.stop();
            },
            None => {},
        }
        self.discovery = None;
        self.is_running = false;
        self.status.is_enabled = false;
        true
    }

    /// Whether the system runs.
    pub fn is_running(&self) -> (r: bool)
        ensures
            r == self.running(),
    {
        self.is_running
    }
}

/// The counters of `new` are the given ones; duration and device list are those of `old`.
pub open spec fn counters_are(new: SyncStats, old: SyncStats, total: u64, successful: u64, failed: u64, data: u64) -> bool {
    &&& new.total_syncs == total
    &&& new.successful_syncs == successful
    &&& new.failed_syncs == failed
    &&& new.total_data_synced == data
    &&& new.last_sync_duration == old.last_sync_duration
    &&& new.devices_synced_with@ == old.devices_synced_with@
}

/// The status of `new` is that of `old` but for the sync time and the list
/// of connected devices.
pub open spec fn status_flags_kept(new: SyncStatus, old: SyncStatus) -> bool {
    &&& new.is_enabled == old.is_enabled
    &&& new.sync_method == old.sync_method
    &&& new.auto_sync == old.auto_sync
}

/// The parts that no lifecycle event touches are unchanged.
pub open spec fn frame_kept(new: &SyncManager, old: &SyncManager) -> bool {
    &&& new.running() == old.running()
    &&& new.config_spec() == old.config_spec()
    &&& new.discovery_spec() == old.discovery_spec()
    &&& new.engine() == old.engine()
    &&& status_flags_kept(new.status_spec(), old.status_spec())
}

/// `DeviceDiscovered`: a discovery is not a sync, so nothing is counted.
pub open spec fn after_discovered(new: &SyncManager, old: &SyncManager) -> bool {
    &&& frame_kept(new, old)
    &&& new.connected() == old.connected()
    &&& new.status_spec() == old.status_spec()
    &&& new.stats_spec() == old.stats_spec()
}

/// `DeviceConnected`: the device enters the registry (replacing a record
/// with its id) and the status list, and its id the list of devices synced with.
pub open spec fn after_connected(new: &SyncManager, old: &SyncManager, device: DeviceInfo) -> bool {
    let s = old.stats_spec();
    &&& frame_kept(new, old)
    &&& new.connected() == without_id(old.connected(), device.id@).push(device)
    &&& new.status_spec().last_sync == old.status_spec().last_sync
    &&& new.status_spec().connected_devices@.len() == old.status_spec().connected_devices@.len() + 1
    &&& new.status_spec().connected_devices@.last().same_as(&device)
    &&& new.status_spec().connected_devices@.drop_last() == old.status_spec().connected_devices@
    &&& new.stats_spec().total_syncs == s.total_syncs
    &&& new.stats_spec().successful_syncs == s.successful_syncs
    &&& new.stats_spec().failed_syncs == s.failed_syncs
    &&& new.stats_spec().total_data_synced == s.total_data_synced
    &&& new.stats_spec().last_sync_duration == s.last_sync_duration
    &&& new.stats_spec().devices_synced_with@ == s.devices_synced_with@.push(device.id)
}

/// `DeviceDisconnected`: the device leaves the registry and the status list.
pub open spec fn after_disconnected(new: &SyncManager, old: &SyncManager, id: Seq<char>) -> bool {
    &&& frame_kept(new, old)
    &&& new.connected() == without_id(old.connected(), id)
    &&& new.status_spec().last_sync == old.status_spec().last_sync
    &&& new.status_spec().connected_devices@ == without_id(old.status_spec().connected_devices@, id)
    &&& new.stats_spec() == old.stats_spec()
}

/// `SyncStarted`, `SyncCompleted`, `SyncFailed`: the registry's record of the
/// device changes status, and the counters move.
pub open spec fn after_lifecycle(new: &SyncManager, old: &SyncManager, id: Seq<char>, change: StatusChange, message: Seq<char>) -> bool {
    let s = old.stats_spec();
    &&& frame_kept(new, old)
    &&& devices_changed(old.connected(), new.connected(), id, change, message)
    &&& new.status_spec().connected_devices == old.status_spec().connected_devices
    &&& match change {
        StatusChange::Started => new.stats_spec() == s && new.status_spec().last_sync == old.status_spec().last_sync,
        StatusChange::Completed => new.status_spec().last_sync is Some
            && counters_are(new.stats_spec(), s, bump(s.total_syncs), bump(s.successful_syncs), s.failed_syncs, s.total_data_synced),
        StatusChange::Failed => new.status_spec().last_sync == old.status_spec().last_sync
            && counters_are(new.stats_spec(), s, bump(s.total_syncs), s.successful_syncs, bump(s.failed_syncs), s.total_data_synced),
    }
}

/// `ChangesDetected(n)`: `n` is added to the data total.
pub open spec fn after_changes(new: &SyncManager, old: &SyncManager, count: u64) -> bool {
    let s = old.stats_spec();
    &&& frame_kept(new, old)
    &&& new.connected() == old.connected()
    &&& new.status_spec() == old.status_spec()
    &&& counters_are(new.stats_spec(), s, s.total_syncs, s.successful_syncs, s.failed_syncs, sat_add(s.total_data_synced, count as nat))
}

impl SyncManager {
    /// Records a `DeviceDiscovered` event.
    pub fn device_discovered(&mut self, device: &DeviceInfo)
        requires
            old(self).wf(),
        ensures
            final(self).wf(),
            after_discovered(final(self), old(self)),
    {
    }

    /// Records a `DeviceConnected` event.
    pub fn device_connected(&mut self, device: DeviceInfo)
        requires
            old(self).wf(),
        ensures
            final(self).wf(),
            after_connected(final(self), old(self), device),
    {
        let copy = device.clone();
        let id = device.id.clone();
        let ghost moved = device;
        remove_by_id(&mut self.connected_devices, &device.id);
        proof {
            lemma_without_id(old(self).connected_devices@, device.id@);
            lemma_push_fresh(self.connected_devices@, device);
        }
        self.connected_devices.push(device);
        let ghost before = self.status.connected_devices@;
        self.status.connected_devices.push(copy);
        assert(self.status.connected_devices@.drop_last() =~= before);
        self.stats.devices_synced_with.push(id);
        assert(moved.id == id);
    }

    /// Records a `DeviceDisconnected` event.
    pub fn device_disconnected(&mut self, device: &DeviceInfo)
        requires
            old(self).wf(),
        ensures
            final(self).wf(),
            after_disconnected(final(self), old(self), device.id@),
    {
        remove_by_id(&mut self.connected_devices, &device.id);
        proof {
            lemma_without_id(old(self).connected_devices@, device.id@);
        }
        remove_by_id(&mut self.status.connected_devices, &device.id);
    }

    /// Records a `SyncStarted` event: the device is syncing.
    pub fn sync_started(&mut self, device: &DeviceInfo)
        requires
            old(self).wf(),
        ensures
            final(self).wf(),
            after_lifecycle(final(self), old(self), device.id@, StatusChange::Started, Seq::empty()),
    {
        let none = String::new();
        change_devices(&mut self.connected_devices, &device.id, StatusChange::Started, &none);
    }

    /// Records a `SyncCompleted` event: the device is connected and synced now.
    pub fn sync_completed(&mut self, device: &DeviceInfo, count: u64)
        requires
            old(self).wf(),
        ensures
            final(self).wf(),
            after_lifecycle(final(self), old(self), device.id@, StatusChange::Completed, Seq::empty()),
    {
        let none = String::new();
        change_devices(&mut self.connected_devices, &device.id, StatusChange::Completed, &none);
        self.status.last_sync = Some(now_unix_seconds());
        self.stats.successful_syncs = bump_exec(self.stats.successful_syncs);
        self.stats.total_syncs = bump_exec(self.stats.total_syncs);
    }

    /// Records a `SyncFailed` event: the device is in error with the message.
    pub fn sync_failed(&mut self, device: &DeviceInfo, error: &String)
        requires
            old(self).wf(),
        ensures
            final(self).wf(),
            after_lifecycle(final(self), old(self), device.id@, StatusChange::Failed, error@),
    {
        change_devices(&mut self.connected_devices, &device.id, StatusChange::Failed, error);
        self.stats.failed_syncs = bump_exec(self.stats.failed_syncs);
        self.stats.total_syncs = bump_exec(self.stats.total_syncs);
    }

    /// Records a `ChangesDetected` event.
    pub fn changes_detected(&mut self, count: u64)
        requires
            old(self).wf(),
        ensures
            final(self).wf(),
            after_changes(final(self), old(self), count),
    {
        let t = self.stats.total_data_synced;
        self.stats.total_data_synced = if t <= u64::MAX - count { t + count } else { u64::MAX };
    }

    /// Applies one event, in the order the events were sent: discovery and
    /// changes move the statistics, connections the registry, and the sync
    /// lifecycle the status of the device concerned (`Syncing`, then
    /// `Connected` with a sync time, or `Error` with the message). A heartbeat
    /// changes nothing.
    pub fn process_event(&mut self, event: SyncEvent)
        requires
            old(self).wf(),
        ensures
            final(self).wf(),
            match event {
                SyncEvent::DeviceDiscovered(_) => after_discovered(final(self), old(self)),
                SyncEvent::DeviceConnected(d) => after_connected(final(self), old(self), d),
                SyncEvent::DeviceDisconnected(d) => after_disconnected(final(self), old(self), d.id@),
                SyncEvent::SyncStarted(d) => after_lifecycle(final(self), old(self), d.id@, StatusChange::Started, Seq::empty()),
                SyncEvent::SyncCompleted(d, _) => after_lifecycle(final(self), old(self), d.id@, StatusChange::Completed, Seq::empty()),
                SyncEvent::SyncFailed(d, m) => after_lifecycle(final(self), old(self), d.id@, StatusChange::Failed, m@),
                SyncEvent::ChangesDetected(n) => after_changes(final(self), old(self), n),
                SyncEvent::Heartbeat => *final(self) == *old(self),
            },
    {
        match event {
            SyncEvent::DeviceDiscovered(d) => self.device_discovered(&d),
            SyncEvent::DeviceConnected(d) => self.device_connected(d),
            SyncEvent::DeviceDisconnected(d) => self.device_disconnected(&d),
            SyncEvent::SyncStarted(d) => self.sync_started(&d),
            SyncEvent::SyncCompleted(d, n) => self.sync_completed(&d, n),
            SyncEvent::SyncFailed(d, m) => self.sync_failed(&d, &m),
            SyncEvent::ChangesDetected(n) => self.changes_detected(n),
            SyncEvent::Heartbeat => {},
        }
    }
}

/// Removes the devices that the manager's cleanup drops at `now`.
fn retain_connected(v: &mut Vec<DeviceInfo>, now: i64, max_age: u64)
    ensures
        final(v)@ == kept_connected(old(v)@, now, max_age),
{
    let ghost s0 = v@;
    let n = v.len();
    let mut i: usize = 0;
    let mut j: usize = 0;
    proof {
        assert(s0.take(0) =~= Seq::<DeviceInfo>::empty());
        assert(v@ =~= kept_connected(s0.take(0), now, max_age) + s0.skip(0));
    }
    while i < v.len()
        invariant
            j <= s0.len(),
            s0.len() == n,
            i == kept_connected(s0.take(j as int), now, max_age).len(),
            v@ == kept_connected(s0.take(j as int), now, max_age) + s0.skip(j as int),
        decreases s0.len() - j,
    {
        let ghost kept = kept_connected(s0.take(j as int), now, max_age);
        proof {
            assert(v@.len() == kept.len() + s0.skip(j as int).len());
            assert(j < s0.len());
            assert(s0.take(j + 1).drop_last() =~= s0.take(j as int));
            assert(s0.take(j + 1).last() == s0[j as int]);
            assert(v@[i as int] == s0[j as int]);
        }
        let fresh = match v[i].last_seen {
            Some(t) => recent(t, now, max_age),
            None => false,
        };
        if fresh {
            proof {
                assert(kept.push(s0[j as int]) + s0.skip(j + 1) =~= kept + s0.skip(j as int));
            }
            i = i + 1;
        } else {
            let _ = v.remove(i);
            proof {
                assert(v@ =~= kept + s0.skip(j + 1));
            }
        }
        j = j + 1;
    }
    proof {
        assert(s0.take(j as int) =~= s0);
        assert(s0.skip(j as int) =~= Seq::<DeviceInfo>::empty());
        assert(v@ =~= kept_connected(s0, now, max_age));
    }
}

/// The manager after a cleanup at `now`: both sets filtered by their own
/// staleness rule, nothing else changed.
pub open spec fn cleaned_at(new: &SyncManager, old: &SyncManager, now: i64) -> bool {
    &&& new.connected() == kept_connected(old.connected(), now, CONNECTED_MAX_AGE)
    &&& match (new.discovery_spec(), old.discovery_spec()) {
        (Some(a), Some(b)) => a.devices() == kept_discovered(b.devices(), now, DISCOVERY_MAX_AGE)
            && a.running() == b.running(),
        (None, None) => true,
        _ => false,
    }
}

/// The manager's cleanup keeps some of the records.
pub proof fn lemma_kept_connected(s: Seq<DeviceInfo>, now: i64, max_age: u64)
    ensures
        drawn_from(kept_connected(s, now, max_age), s),
        unique_ids(s) ==> unique_ids(kept_connected(s, now, max_age)),
    decreases s.len(),
{
    if s.len() > 0 {
        lemma_kept_connected(s.drop_last(), now, max_age);
        let prev = kept_connected(s.drop_last(), now, max_age);
        if unique_ids(s) {
            assert(unique_ids(s.drop_last()));
        }
        if fresh_for_manager(s.last().last_seen, now, max_age) {
            crate::discovery::lemma_keep_last(prev, s);
        } else {
            crate::discovery::lemma_skip_last(prev, s);
        }
    }
}

impl SyncManager {
    /// The periodic cleanup at `now`: discovery drops devices not seen for
    /// 300 s (keeping those with no time), and the registry drops connected
    /// devices not seen for 600 s (dropping those with no time).
    pub fn cleanup_at(&mut self, now: i64)
        requires
            old(self).wf(),
        ensures
            cleaned_at(final(self), old(self), now),
            final(self).running() == old(self).running(),
            final(self).engine() == old(self).engine(),
            final(self).stats_spec() == old(self).stats_spec(),
            final(self).status_spec() == old(self).status_spec(),
            final(self).wf(),
    {
        match &mut self.discovery {
            Some(d) => d.cleanup_devices_before(now, DISCOVERY_MAX_AGE),
            None => {},
        }
        retain_connected(&mut self.connected_devices, now, CONNECTED_MAX_AGE);
        proof {
            lemma_kept_connected(old(self).connected_devices@, now, CONNECTED_MAX_AGE);
        }
    }

    /// The periodic cleanup at the current time.
    pub fn periodic_cleanup(&mut self)
        requires
            old(self).wf(),
        ensures
            exists|now: i64| cleaned_at(final(self), old(self), now),
            final(self).running() == old(self).running(),
            final(self).engine() == old(self).engine(),
            final(self).stats_spec() == old(self).stats_spec(),
            final(self).wf(),
    {
        let now = now_unix_seconds();
        self.cleanup_at(now);
    }

    /// Copies of the connected devices.
    pub fn get_connected_devices(&self) -> (r: Vec<DeviceInfo>)
        ensures
            r@.len() == self.connected().len(),
            forall|i: int| 0 <= i < r@.len() ==> (#[trigger] r@[i]).same_as(&self.connected()[i]),
    {
        clone_devices(&self.connected_devices)
    }

    /// Copies of the discovered devices; none while discovery does not exist.
    pub fn get_discovered_devices(&self) -> (r: Vec<DeviceInfo>)
        ensures
            match self.discovery_spec() {
                Some(d) => r@.len() == d.devices().len()
                    && forall|i: int| 0 <= i < r@.len() ==> (#[trigger] r@[i]).same_as(&d.devices()[i]),
                None => r@.len() == 0,
            },
    {
        match &self.discovery {
            Some(d) => d.get_discovered_devices(),
            None => Vec::new(),
        }
    }

    /// The discovered devices whose name, OS or type name contains `query`,
    /// ignoring case; none while discovery does not exist.
    pub fn search_devices(&self, query: &str) -> (r: Vec<DeviceInfo>)
        ensures
            match self.discovery_spec() {
                Some(d) => r@.len() == matching(d.devices(), lower_of(query@)).len()
                    && forall|i: int| 0 <= i < r@.len() ==> (#[trigger] r@[i]).same_as(&matching(d.devices(), lower_of(query@))[i]),
                None => r@.len() == 0,
            },
    {
        match &self.discovery {
            Some(d) => {
                let devices = d.get_discovered_devices();
                let lower = lowercase(query);
                let found = filter_devices(&devices, lower.as_str());
                proof {
                    lemma_matching_same(devices@, d.devices(), lower@);
                }
                found
            },
            None => Vec::new(),
        }
    }

    /// A copy of the statistics.
    pub fn get_stats(&self) -> (r: SyncStats)
        ensures
            r.total_syncs == self.stats_spec().total_syncs,
            r.successful_syncs == self.stats_spec().successful_syncs,
            r.failed_syncs == self.stats_spec().failed_syncs,
            r.total_data_synced == self.stats_spec().total_data_synced,
            r.last_sync_duration == self.stats_spec().last_sync_duration,
            r.devices_synced_with@.len() == self.stats_spec().devices_synced_with@.len(),
    {
        clone_stats(&self.stats)
    }

    /// A copy of the overall status.
    pub fn get_status(&self) -> (r: SyncStatus)
        ensures
            r.is_enabled == self.status_spec().is_enabled,
            r.last_sync == self.status_spec().last_sync,
            r.sync_method == self.status_spec().sync_method,
            r.auto_sync == self.status_spec().auto_sync,
            r.connected_devices@.len() == self.status_spec().connected_devices@.len(),
    {
        SyncStatus {
            is_enabled: self.status.is_enabled,
            connected_devices: clone_devices(&self.status.connected_devices),
            last_sync: self.status.last_sync,
            sync_method: self.status.sync_method,
            auto_sync: self.status.auto_sync,
        }
    }

    /// A copy of the configuration.
    pub fn get_config(&self) -> (r: SyncConfig)
        ensures
            r.auto_discovery == self.config_spec().auto_discovery,
            r.auto_sync == self.config_spec().auto_sync,
            r.sync_interval == self.config_spec().sync_interval,
            r.max_devices == self.config_spec().max_devices,
            r.encryption_level == self.config_spec().encryption_level,
    {
        clone_config(&self.config)
    }

    /// Replaces the configuration.
    pub fn update_config(&mut self, new_config: SyncConfig)
        requires
            old(self).wf(),
        ensures
            final(self).config_spec() == new_config,
            final(self).running() == old(self).running(),
            final(self).connected() == old(self).connected(),
            final(self).engine() == old(self).engine(),
            final(self).stats_spec() == old(self).stats_spec(),
            final(self).wf(),
    {
        self.config = new_config;
    }

    /// A summary of the system.
    pub fn get_system_info(&self) -> (r: SystemInfo)
        ensures
            r.is_running == self.running(),
            r.is_enabled == self.status_spec().is_enabled,
            r.sync_method == self.status_spec().sync_method,
            r.auto_sync == self.status_spec().auto_sync,
            r.auto_discovery == self.config_spec().auto_discovery,
            r.connected_devices == self.connected().len(),
            r.discovered_devices == match self.discovery_spec() {
                Some(d) => d.devices().len(),
                None => 0,
            },
            r.total_syncs == self.stats_spec().total_syncs,
            r.successful_syncs == self.stats_spec().successful_syncs,
            r.failed_syncs == self.stats_spec().failed_syncs,
            r.last_sync == self.status_spec().last_sync,
    {
        let discovered = self.get_discovered_devices().len();
        SystemInfo {
            is_running: self.is_running,
            is_enabled: self.status.is_enabled,
            sync_method: self.status.sync_method,
            auto_sync: self.status.auto_sync,
            auto_discovery: self.config.auto_discovery,
            connected_devices: self.connected_devices.len(),
            discovered_devices: discovered,
            total_syncs: self.stats.total_syncs,
            successful_syncs: self.stats.successful_syncs,
            failed_syncs: self.stats.failed_syncs,
            last_sync: self.status.last_sync,
        }
    }

    /// The change engine, for reading.
    pub fn smart_sync(&self) -> (r: &SmartSync)
        ensures
            *r == self.engine(),
    {
        &self.smart_sync
    }

    /// Queues a local change in the engine; on success a `ChangesDetected(1)`
    /// event is applied. An invalid change is refused with `InvalidChange`.
    pub fn add_change(&mut self, change: DataChange) -> (r: Result<(), SyncError>)
        requires
            old(self).wf(),
        ensures
            final(self).wf(),
            r is Ok <==> crate::smart_sync::change_valid(change@),
            r is Ok ==> final(self).engine()@ == (SmartSyncView { pending: old(self).engine()@.pending.push(change@), ..old(self).engine()@ })
                && final(self).stats_spec().total_data_synced == sat_add(old(self).stats_spec().total_data_synced, 1),
            r is Err ==> final(self).engine()@ == old(self).engine()@ && final(self).stats_spec() == old(self).stats_spec(),
            final(self).connected() == old(self).connected(),
            final(self).running() == old(self).running(),
    {
        match self.smart_sync.add_change(change) {
            Ok(()) => {
                self.changes_detected(1);
                Ok(())
            },
            Err(e) => Err(e),
        }
    }

    /// Compares remote changes with the engine's pending ones and records the
    /// conflicts (see [`SmartSync::detect_conflicts`]).
    pub fn detect_conflicts(&mut self, remote_changes: Vec<DataChange>) -> (r: Vec<SyncConflict>)
        requires
            old(self).wf(),
        ensures
            final(self).wf(),
            r@.len() == crate::smart_sync::conflict_pairs(crate::smart_sync::changes_view(remote_changes@), old(self).engine()@.pending).len(),
            final(self).engine()@ == (SmartSyncView {
                conflicts: old(self).engine()@.conflicts + crate::smart_sync::conflicts_view(r@),
                ..old(self).engine()@
            }),
            final(self).connected() == old(self).connected(),
            final(self).stats_spec() == old(self).stats_spec(),
    {
        self.smart_sync.detect_conflicts(remote_changes)
    }

    /// Resolves a conflict of the engine (see [`SmartSync::resolve_conflict`]).
    pub fn resolve_conflict(&mut self, conflict_id: &str, resolution: ConflictResolution) -> (r: Result<(), SyncError>)
        requires
            old(self).wf(),
        ensures
            final(self).wf(),
            r is Ok,
            final(self).engine()@ == (SmartSyncView {
                conflicts: old(self).engine()@.conflicts.map_values(
                    |c: crate::smart_sync::ConflictView| crate::smart_sync::resolved(c, conflict_id@, resolution)),
                ..old(self).engine()@
            }),
            final(self).connected() == old(self).connected(),
            final(self).stats_spec() == old(self).stats_spec(),
    {
        self.smart_sync.resolve_conflict(conflict_id, resolution)
    }

    /// Syncs the pending changes with the connected device of id `device_id`
    /// over `conn`: the device is marked syncing, the engine runs, and the
    /// outcome is recorded (`SyncCompleted` or `SyncFailed`). An unknown
    /// device gives a failure and changes nothing.
    pub fn sync_with_device(&mut self, device_id: &str, conn: &mut P2PConnection) -> (r: SyncResult)
        requires
            old(self).wf(),
        ensures
            final(self).wf(),
            r.device_id@ == device_id@,
            (forall|k: int| 0 <= k < old(self).connected().len() ==> (#[trigger] old(self).connected()[k]).id@ != device_id@)
                ==> !r.success && *final(self) == *old(self),
            (exists|k: int| 0 <= k < old(self).connected().len() && (#[trigger] old(self).connected()[k]).id@ == device_id@)
                ==> (final(self).engine()@, r.success) == sync_outcome(old(self).engine()@, old(conn).state_view() is Connected)
                && final(self).stats_spec().total_syncs == bump(old(self).stats_spec().total_syncs)
                && final(self).stats_spec().successful_syncs == if r.success {
                    bump(old(self).stats_spec().successful_syncs)
                } else {
                    old(self).stats_spec().successful_syncs
                }
                && final(self).stats_spec().failed_syncs == if r.success {
                    old(self).stats_spec().failed_syncs
                } else {
                    bump(old(self).stats_spec().failed_syncs)
                },
            final(self).running() == old(self).running(),
            same_ids(final(self).connected(), old(self).connected()),
            final(conn).state_view() == old(conn).state_view(),
            final(conn).remote() == old(conn).remote(),
    {
        let mut found: Option<DeviceInfo> = None;
        let mut i: usize = 0;
        while i < self.connected_devices.len()
            invariant
                i <= self.connected_devices@.len(),
                found is None ==> forall|k: int| 0 <= k < i ==> (#[trigger] self.connected_devices@[k]).id@ != device_id@,
                found matches Some(d) ==> d.id@ == device_id@ && exists|k: int| 0 <= k < self.connected_devices@.len()
                    && (#[trigger] self.connected_devices@[k]).id@ == device_id@,
            decreases self.connected_devices@.len() - i,
        {
            if found.is_none() && crate::device_info::text_eq(self.connected_devices[i].id.as_str(), device_id) {
                found = Some(self.connected_devices[i].clone());
            }
            i = i + 1;
        }
        match found {
            None => SyncResult::failure(device_id.to_owned(), "unknown device".to_owned()),
            Some(device) => {
                self.sync_started(&device);
                let r = self.smart_sync.sync_with_device(&device, conn);
                if r.success {
                    self.sync_completed(&device, r.elements_synced);
                } else {
                    let message = match &r.error_message {
                        Some(m) => m.clone(),
                        None => String::new(),
                    };
                    self.sync_failed(&device, &message);
                }
                r
            },
        }
    }
}

/// Copies of a list match a query exactly as the list does.
proof fn lemma_matching_same(a: Seq<DeviceInfo>, b: Seq<DeviceInfo>, q: Seq<char>)
    requires
        a.len() == b.len(),
        forall|i: int| 0 <= i < a.len() ==> (#[trigger] a[i]).same_as(&b[i]),
    ensures
        matching(a, q).len() == matching(b, q).len(),
        forall|i: int| 0 <= i < matching(a, q).len() ==> (#[trigger] matching(a, q)[i]).same_as(&matching(b, q)[i]),
    decreases a.len(),
{
    if a.len() > 0 {
        lemma_matching_same(a.drop_last(), b.drop_last(), q);
        assert(a.last().same_as(&b.last()));
        assert(matches_query(a.last(), q) == matches_query(b.last(), q));
    }
}

/// Two registries hold the same ids in the same places.
pub open spec fn same_ids(a: Seq<DeviceInfo>, b: Seq<DeviceInfo>) -> bool {
    &&& a.len() == b.len()
    &&& forall|k: int| 0 <= k < a.len() ==> (#[trigger] a[k]).id@ == b[k].id@
}

/// The ids of the devices available for sync (connected, neither syncing
/// nor failed), in registry order.
pub open spec fn available_ids(s: Seq<DeviceInfo>) -> Seq<Seq<char>>
    decreases s.len(),
{
    if s.len() == 0 {
        Seq::empty()
    } else if s.last().status@ is Connected {
        available_ids(s.drop_last()).push(s.last().id@)
    } else {
        available_ids(s.drop_last())
    }
}

/// Whether a registry holds a device of id `id`.
pub open spec fn has_id(s: Seq<DeviceInfo>, id: Seq<char>) -> bool {
    exists|k: int| 0 <= k < s.len() && (#[trigger] s[k]).id@ == id
}

/// Every available id is the id of a device of the registry.
proof fn lemma_available_ids(s: Seq<DeviceInfo>)
    ensures
        forall|m: int| 0 <= m < available_ids(s).len() ==> has_id(s, #[trigger] available_ids(s)[m]),
    decreases s.len(),
{
    if s.len() > 0 {
        lemma_available_ids(s.drop_last());
        assert forall|m: int| 0 <= m < available_ids(s).len() implies has_id(s, #[trigger] available_ids(s)[m]) by {
            if m < available_ids(s.drop_last()).len() {
                assert(has_id(s.drop_last(), available_ids(s.drop_last())[m]));
                let k = choose|k: int| 0 <= k < s.drop_last().len() && (#[trigger] s.drop_last()[k]).id@ == available_ids(s.drop_last())[m];
                assert(s[k] == s.drop_last()[k]);
            } else {
                assert(s[s.len() - 1].id@ == available_ids(s)[m]);
            }
        }
    }
}

/// Whether a connection is with the device of id `id`.
pub open spec fn linked(c: P2PConnection, id: Seq<char>) -> bool {
    c.remote() matches Some(d) && d.id@ == id
}

/// `links[j]` is the first connection with the device of id `id`.
pub open spec fn first_link(links: Seq<P2PConnection>, id: Seq<char>, j: int) -> bool {
    &&& 0 <= j < links.len()
    &&& linked(links[j], id)
    &&& forall|i: int| 0 <= i < j ==> !linked(#[trigger] links[i], id)
}

/// The engine after its pending changes were all transferred.
pub open spec fn transferred(s: SmartSyncView) -> SmartSyncView {
    SmartSyncView { pending: Seq::empty(), synced: s.synced + s.pending, conflicts: s.conflicts }
}

/// Transferring twice is transferring once.
proof fn lemma_transferred_twice(s: SmartSyncView)
    ensures
        transferred(transferred(s)) == transferred(s),
{
    assert(transferred(s).synced + Seq::<crate::smart_sync::ChangeView>::empty() =~= transferred(s).synced);
}

impl SyncManager {
    /// Syncs with the device of id `id` over the first connection in `links`
    /// linked to it; without one, a "not connected" failure.
    fn sync_linked(&mut self, id: &String, links: &mut Vec<P2PConnection>) -> (r: SyncResult)
        requires
            old(self).wf(),
            has_id(old(self).connected(), id@),
        ensures
            final(self).wf(),
            final(self).running() == old(self).running(),
            same_ids(final(self).connected(), old(self).connected()),
            r.device_id@ == id@,
            (forall|j: int| 0 <= j < old(links)@.len() ==> !linked(#[trigger] old(links)@[j], id@))
                ==> !r.success && (r.error_message matches Some(m) && m@ == "not connected"@),
            forall|j: int| first_link(old(links)@, id@, j) && (#[trigger] old(links)@[j]).state_view() is Connected ==> r.success,
            r.success ==> final(self).engine()@ == transferred(old(self).engine()@),
            !r.success ==> final(self).engine()@ == old(self).engine()@,
            final(links)@.len() == old(links)@.len(),
            forall|j: int| 0 <= j < old(links)@.len() ==> (#[trigger] final(links)@[j]).state_view() == old(links)@[j].state_view()
                && final(links)@[j].remote() == old(links)@[j].remote(),
    {
        let ghost l0 = links@;
        let mut found: Option<usize> = None;
        let mut j: usize = 0;
        while j < links.len()
            invariant
                j <= links@.len(),
                links@ == l0,
                found is None ==> forall|q: int| 0 <= q < j ==> !linked(#[trigger] l0[q], id@),
                found matches Some(x) ==> first_link(l0, id@, x as int),
            decreases links@.len() - j,
        {
            if found.is_none() && links[j].is_linked_to(id.as_str()) {
                found = Some(j);
            }
            j = j + 1;
        }
        match found {
            Some(x) => {
                let mut conn = P2PConnection::new_default();
                links.set_and_swap(x, &mut conn);
                proof {
                    let q = choose|q: int| 0 <= q < self.connected_devices@.len() && (#[trigger] self.connected_devices@[q]).id@ == id@;
                    assert(self.connected_devices@[q].id@ == id@);
                }
                let ghost e = self.smart_sync@;
                let r = self.sync_with_device(id.as_str(), &mut conn);
                links.set_and_swap(x, &mut conn);
                proof {
                    if r.success && e.pending.len() == 0 {
                        assert(e.synced + e.pending =~= e.synced);
                        assert(e.pending =~= Seq::<crate::smart_sync::ChangeView>::empty());
                    }
                    assert forall|q: int| 0 <= q < l0.len() implies (#[trigger] links@[q]).state_view() == l0[q].state_view()
                        && links@[q].remote() == l0[q].remote() by {
                        if q != x {
                            assert(links@[q] == l0[q]);
                        }
                    }
                }
                r
            },
            None => SyncResult::failure(id.clone(), "not connected".to_owned()),
        }
    }

    /// Syncs with every device available for sync when the call starts, in
    /// registry order, each over the first connection in `links` that is
    /// linked to it; a device without such a connection gets a "not connected"
    /// failure and the run goes on with the others. One result per device, in
    /// that order. The connections keep their places, states and devices.
    pub fn sync_all_devices(&mut self, links: &mut Vec<P2PConnection>) -> (r: Vec<SyncResult>)
        requires
            old(self).wf(),
        ensures
            final(self).wf(),
            final(self).running() == old(self).running(),
            r@.len() == available_ids(old(self).connected()).len(),
            forall|i: int| 0 <= i < r@.len() ==> (#[trigger] r@[i]).device_id@ == available_ids(old(self).connected())[i],
            forall|i: int| 0 <= i < r@.len() && (forall|j: int| 0 <= j < old(links)@.len() ==> !linked(#[trigger] old(links)@[j], available_ids(old(self).connected())[i]))
                ==> !(#[trigger] r@[i]).success && (r@[i].error_message matches Some(m) && m@ == "not connected"@),
            forall|i: int, j: int| 0 <= i < r@.len() && first_link(old(links)@, available_ids(old(self).connected())[i], j)
                && (#[trigger] old(links)@[j]).state_view() is Connected ==> (#[trigger] r@[i]).success,
            (exists|i: int| 0 <= i < r@.len() && (#[trigger] r@[i]).success) ==> final(self).engine()@ == transferred(old(self).engine()@),
            !(exists|i: int| 0 <= i < r@.len() && (#[trigger] r@[i]).success) ==> final(self).engine()@ == old(self).engine()@,
            final(links)@.len() == old(links)@.len(),
            forall|j: int| 0 <= j < old(links)@.len() ==> (#[trigger] final(links)@[j]).state_view() == old(links)@[j].state_view()
                && final(links)@[j].remote() == old(links)@[j].remote(),
    {
        let ghost c0 = self.connected_devices@;
        let ghost l0 = links@;
        let ghost e0 = self.smart_sync@;
        let mut ids: Vec<String> = Vec::new();
        let mut i: usize = 0;
        while i < self.connected_devices.len()
            invariant
                i <= self.connected_devices@.len(),
                self.connected_devices@ == c0,
                ids@.map_values(|t: String| t@) == available_ids(c0.take(i as int)),
            decreases self.connected_devices@.len() - i,
        {
            proof {
                assert(c0.take(i + 1).drop_last() =~= c0.take(i as int));
                assert(c0.take(i + 1).last() == c0[i as int]);
            }
            if self.connected_devices[i].is_available_for_sync() {
                let id = self.connected_devices[i].id.clone();
                let ghost before = ids@;
                ids.push(id);
                proof {
                    assert(ids@.map_values(|t: String| t@) =~= before.map_values(|t: String| t@).push(c0[i as int].id@));
                }
            }
            i = i + 1;
        }
        proof {
            assert(c0.take(c0.len() as int) =~= c0);
            lemma_available_ids(c0);
        }
        let ghost wanted = ids@.map_values(|t: String| t@);
        let mut results: Vec<SyncResult> = Vec::new();
        let ghost mut any_ok = false;
        let mut k: usize = 0;
        while k < ids.len()
            invariant
                self.wf(),
                self.is_running == old(self).is_running,
                wanted == ids@.map_values(|t: String| t@),
                wanted == available_ids(c0),
                forall|m: int| 0 <= m < wanted.len() ==> has_id(c0, #[trigger] wanted[m]),
                same_ids(self.connected_devices@, c0),
                l0 == old(links)@,
                c0 == old(self).connected(),
                e0 == old(self).engine()@,
                links@.len() == l0.len(),
                forall|j: int| 0 <= j < l0.len() ==> (#[trigger] links@[j]).state_view() == l0[j].state_view()
                    && links@[j].remote() == l0[j].remote(),
                k <= ids@.len(),
                results@.len() == k,
                forall|m: int| 0 <= m < k ==> (#[trigger] results@[m]).device_id@ == wanted[m],
                forall|m: int| 0 <= m < k && (forall|j: int| 0 <= j < l0.len() ==> !linked(#[trigger] l0[j], wanted[m]))
                    ==> !(#[trigger] results@[m]).success && (results@[m].error_message matches Some(t) && t@ == "not connected"@),
                forall|m: int, j: int| 0 <= m < k && first_link(l0, wanted[m], j) && (#[trigger] l0[j]).state_view() is Connected
                    ==> (#[trigger] results@[m]).success,
                any_ok == exists|m: int| 0 <= m < k && (#[trigger] results@[m]).success,
                any_ok ==> self.smart_sync@ == transferred(e0),
                !any_ok ==> self.smart_sync@ == e0,
            decreases ids@.len() - k,
        {
            let id = &ids[k];
            proof {
                assert(has_id(c0, wanted[k as int]));
                let q = choose|q: int| 0 <= q < c0.len() && (#[trigger] c0[q]).id@ == wanted[k as int];
                assert(self.connected_devices@[q].id@ == id@);
                assert(has_id(self.connected_devices@, id@));
                lemma_transferred_twice(e0);
            }
            let ghost before_ok = any_ok;
            let ghost before = results@;
            let ghost lk = links@;
            let r = self.sync_linked(id, links);
            proof {
                any_ok = before_ok || r.success;
                assert forall|j: int| first_link(l0, wanted[k as int], j) && (#[trigger] l0[j]).state_view() is Connected
                    implies r.success by {
                    assert forall|q: int| 0 <= q < l0.len() implies linked(#[trigger] lk[q], id@) == linked(l0[q], id@) by {
                        assert(lk[q].remote() == l0[q].remote());
                    }
                    assert(first_link(lk, id@, j));
                    assert(lk[j].state_view() is Connected);
                }
                if forall|j: int| 0 <= j < l0.len() ==> !linked(#[trigger] l0[j], wanted[k as int]) {
                    assert forall|j: int| 0 <= j < lk.len() implies !linked(#[trigger] lk[j], id@) by {
                        assert(lk[j].remote() == l0[j].remote());
                    }
                }
            }
            results.push(r);
            proof {
                assert forall|m: int| 0 <= m < k implies results@[m] == before[m] by {}
                assert(results@[k as int] == r);
                if before_ok {
                    let m = choose|m: int| 0 <= m < k && (#[trigger] before[m]).success;
                    assert(results@[m].success);
                }
            }
            k = k + 1;
        }
        results
    }
}

impl SyncManager {
    /// The configuration of discovery, while it exists.
    pub fn discovery_config(&self) -> (r: Option<&DiscoveryConfig>)
        ensures
            match (r, self.discovery_spec()) {
                (Some(c), Some(d)) => c == d.config_view(),
                (None, None) => true,
                _ => false,
            },
    {
        match &self.discovery {
            Some(d) => Some(d.config()),
            None => None,
        }
    }

    /// The attributes this device announces, while discovery exists.
    pub fn announcement(&self) -> (r: Option<Vec<(String, String)>>)
        ensures
            r is Some <==> self.discovery_spec() is Some,
    {
        match &self.discovery {
            Some(d) => Some(d.announcement()),
            None => None,
        }
    }

    /// Takes in a resolved peer record (see
    /// [`DeviceDiscovery::handle_service_resolved`]): the device record is
    /// stored in the discovered set and returned, for the `DeviceDiscovered`
    /// event, which changes nothing else. Without discovery the record is ignored.
    pub fn handle_service_resolved(&mut self, properties: &Vec<(String, String)>) -> (r: Option<DeviceInfo>)
        requires
            old(self).wf(),
        ensures
            final(self).wf(),
            r is Some <==> old(self).discovery_spec() is Some,
            r is None ==> *final(self) == *old(self),
            r matches Some(d) ==> record_from(crate::device_info::pairs_view(properties@), d)
                && (final(self).discovery_spec() matches Some(a) && old(self).discovery_spec() matches Some(b)
                    && a.running() == b.running()
                    && exists|stored: DeviceInfo| stored.same_as(&d) && a.devices() == without_id(b.devices(), stored.id@).push(stored)),
            final(self).connected() == old(self).connected(),
            final(self).engine() == old(self).engine(),
            final(self).running() == old(self).running(),
            final(self).stats_spec() == old(self).stats_spec(),
            final(self).status_spec() == old(self).status_spec(),
    {
        let found = match &mut self.discovery {
            Some(d) => Some(d.handle_service_resolved(properties)),
            None => None,
        };
        match found {
            Some(device) => {
                self.device_discovered(&device);
                Some(device)
            },
            None => None,
        }
    }
}

} // verus!
