//! The change and conflict engine: pending and synced change sets, conflict
//! detection against remote changes, resolution, and batched transfer.
use vstd::prelude::*;
use crate::clock::{new_uuid, now_unix_seconds, UUID_STR_LEN};
use crate::device_info::{clone_opt_text, clone_pairs, find_pair, insert_pair, lookup, opt_text, pairs_view, DeviceInfo};
use crate::p2p_connection::{connection_error_text, ConnectionError, FrameView, P2PConnection};
use crate::primitives::{sha256_hex, sha256_hex_digest};
use crate::sync::SyncResult;
pub use crate::sync::SyncStats;

verus! {

/// Kinds of change to a vault element.
#[derive(Debug, Clone, Copy, PartialEq, Eq, Structural)]
pub enum ChangeType {
    Created,
    Modified,
    Deleted,
    Moved,
    MetadataChanged,
}

/// Localised label of a change type.
pub open spec fn change_type_label(t: ChangeType) -> Seq<char> {
    match t {
        ChangeType::Created => "Creado"@,
        ChangeType::Modified => "Modificado"@,
        ChangeType::Deleted => "Eliminado"@,
        ChangeType::Moved => "Movido"@,
        ChangeType::MetadataChanged => "Metadatos"@,
    }
}

/// Icon of a change type.
pub open spec fn change_type_icon(t: ChangeType) -> Seq<char> {
    match t {
        ChangeType::Created => "➕"@,
        ChangeType::Modified => "✏️"@,
        ChangeType::Deleted => "🗑️"@,
        ChangeType::Moved => "📁"@,
        ChangeType::MetadataChanged => "ℹ️"@,
    }
}

impl ChangeType {
    /// Icon for the change type.
    pub fn emoji(&self) -> (r: &'static str)
        ensures
            r@ == change_type_icon(*self),
    {
        match self {
            ChangeType::Created => "➕",
            ChangeType::Modified => "✏️",
            ChangeType::Deleted => "🗑️",
            ChangeType::Moved => "📁",
            ChangeType::MetadataChanged => "ℹ️",
        }
    }

    /// Localised label for the change type.
    pub fn display_name(&self) -> (r: &'static str)
        ensures
            r@ == change_type_label(*self),
    {
        match self {
            ChangeType::Created => "Creado",
            ChangeType::Modified => "Modificado",
            ChangeType::Deleted => "Eliminado",
            ChangeType::Moved => "Movido",
            ChangeType::MetadataChanged => "Metadatos",
        }
    }
}

/// Failures of the change engine.
#[derive(Debug, Clone, Copy, PartialEq, Eq, Structural)]
pub enum SyncError {
    /// A change without element id or source device.
    InvalidChange,
}

/// One change to one element. The element data is already encrypted; the
/// current hash is the SHA-256 of it (empty without data). Times are Unix seconds.
#[derive(Debug)]
pub struct DataChange {
    pub id: String,
    pub element_id: String,
    pub change_type: ChangeType,
    pub timestamp: i64,
    pub source_device: String,
    pub element_data: Option<Vec<u8>>,
    /// Extra attributes; a later entry for a key replaces an earlier one.
    pub metadata: Vec<(String, String)>,
    pub version: u64,
    pub previous_hash: Option<String>,
    pub current_hash: String,
}

/// The mathematical value of a [`DataChange`].
pub struct ChangeView {
    pub id: Seq<char>,
    pub element_id: Seq<char>,
    pub change_type: ChangeType,
    pub timestamp: i64,
    pub source_device: Seq<char>,
    pub element_data: Option<Seq<u8>>,
    pub metadata: Seq<(Seq<char>, Seq<char>)>,
    pub version: u64,
    pub previous_hash: Option<Seq<char>>,
    pub current_hash: Seq<char>,
}

/// The bytes of optional data.
pub open spec fn opt_bytes(d: Option<Vec<u8>>) -> Option<Seq<u8>> {
    match d {
        Some(v) => Some(v@),
        None => None,
    }
}

impl View for DataChange {
    type V = ChangeView;

    open spec fn view(&self) -> ChangeView {
        ChangeView {
            id: self.id@,
            element_id: self.element_id@,
            change_type: self.change_type,
            timestamp: self.timestamp,
            source_device: self.source_device@,
            element_data: opt_bytes(self.element_data),
            metadata: pairs_view(self.metadata@),
            version: self.version,
            previous_hash: opt_text(self.previous_hash),
            current_hash: self.current_hash@,
        }
    }
}

/// A copy of a byte vector.
pub fn clone_bytes(v: &Vec<u8>) -> (r: Vec<u8>)
    ensures
        r@ == v@,
{
    let r = v.clone();
    assert(r@ =~= v@);
    r
}

/// A copy of optional bytes.
pub fn clone_opt_bytes(d: &Option<Vec<u8>>) -> (r: Option<Vec<u8>>)
    ensures
        opt_bytes(r) == opt_bytes(*d),
{
    match d {
        Some(v) => Some(clone_bytes(v)),
        None => None,
    }
}

impl Clone for DataChange {
    fn clone(&self) -> (r: Self)
        ensures
            r@ == self@,
    {
        DataChange {
            id: self.id.clone(),
            element_id: self.element_id.clone(),
            change_type: self.change_type,
            timestamp: self.timestamp,
            source_device: self.source_device.clone(),
            element_data: clone_opt_bytes(&self.element_data),
            metadata: clone_pairs(&self.metadata),
            version: self.version,
            previous_hash: clone_opt_text(&self.previous_hash),
            current_hash: self.current_hash.clone(),
        }
    }
}

/// Number of bytes of a change's data.
pub open spec fn data_len(c: ChangeView) -> nat {
    match c.element_data {
        Some(d) => d.len(),
        None => 0,
    }
}

/// A change is valid when it names its element and its source device.
pub open spec fn change_valid(c: ChangeView) -> bool {
    c.element_id.len() > 0 && c.source_device.len() > 0
}

impl DataChange {
    /// A new change with a fresh id, stamped now, without metadata; its hash
    /// is the SHA-256 of the data (empty without data).
    pub fn new(
        element_id: String,
        change_type: ChangeType,
        source_device: String,
        element_data: Option<Vec<u8>>,
        version: u64,
        previous_hash: Option<String>,
    ) -> (r: Self)
        ensures
            r@.id.len() == UUID_STR_LEN,
            r@.element_id == element_id@,
            r@.change_type == change_type,
            r@.source_device == source_device@,
            r@.element_data == opt_bytes(element_data),
            r@.metadata.len() == 0,
            r@.version == version,
            r@.previous_hash == opt_text(previous_hash),
            r@.current_hash == match opt_bytes(element_data) {
                Some(d) => sha256_hex(d),
                None => Seq::<char>::empty(),
            },
    {
        let current_hash = match &element_data {
            Some(data) => sha256_hex_digest(data.as_slice()),
            None => String::new(),
        };
        let r = DataChange {
            id: new_uuid(),
            element_id,
            change_type,
            timestamp: now_unix_seconds(),
            source_device,
            element_data,
            metadata: Vec::new(),
            version,
            previous_hash,
            current_hash,
        };
        assert(pairs_view(r.metadata@) =~= Seq::<(Seq<char>, Seq<char>)>::empty());
        r
    }

    /// Sets the attribute `key` to `value`.
    pub fn add_metadata(&mut self, key: String, value: String)
        ensures
            lookup(final(self)@.metadata, key@) == Some(value@),
            forall|k: Seq<char>| k != key@ ==> lookup(final(self)@.metadata, k) == lookup(old(self)@.metadata, k),
            final(self)@.element_id == old(self)@.element_id,
            final(self)@.id == old(self)@.id,
    {
        insert_pair(&mut self.metadata, key, value);
    }

    /// The attribute `key`, if set.
    pub fn get_metadata(&self, key: &str) -> (r: Option<&String>)
        ensures
            match r {
                Some(v) => lookup(self@.metadata, key@) == Some(v@),
                None => lookup(self@.metadata, key@) is None,
            },
    {
        find_pair(&self.metadata, key)
    }

    /// Whether the change names its element and its source device.
    pub fn is_valid(&self) -> (r: bool)
        ensures
            r == change_valid(self@),
    {
        !self.element_id.as_str().is_empty() && !self.source_device.as_str().is_empty()
    }

    /// Number of bytes of data (0 without data).
    pub fn data_size(&self) -> (r: usize)
        ensures
            r == data_len(self@),
    {
        match &self.element_data {
            Some(d) => d.len(),
            None => 0,
        }
    }
}

/// The values of a list of changes.
pub open spec fn changes_view(v: Seq<DataChange>) -> Seq<ChangeView> {
    v.map_values(|c: DataChange| c@)
}

/// A copy of a list of changes.
pub fn clone_changes(v: &Vec<DataChange>) -> (r: Vec<DataChange>)
    ensures
        changes_view(r@) == changes_view(v@),
{
    let mut out: Vec<DataChange> = Vec::new();
    let mut i: usize = 0;
    while i < v.len()
        invariant
            i <= v@.len(),
            changes_view(out@) =~= changes_view(v@).take(i as int),
        decreases v@.len() - i,
    {
        let c = v[i].clone();
        let ghost before = out@;
        out.push(c);
        proof {
            assert(out@ =~= before.push(c));
            assert(changes_view(out@) =~= changes_view(before).push(c@));
            assert(changes_view(v@).take(i + 1) =~= changes_view(v@).take(i as int).push(v@[i as int]@));
        }
        i = i + 1;
    }
    proof {
        assert(changes_view(v@).take(v@.len() as int) =~= changes_view(v@));
    }
    out
}

/// Where a conflict stands.
#[derive(Debug, Clone, Copy, PartialEq, Eq, Structural)]
pub enum ConflictStatus {
    Pending,
    Resolved,
    Ignored,
    AutoResolving,
}

/// How a conflict is settled.
#[derive(Debug, Clone, Copy, PartialEq, Eq, Structural)]
pub enum ConflictResolution {
    UseLocal,
    UseRemote,
    Merge,
    CreateNew,
    Delete,
}

/// Policy for settling conflicts, chosen in the configuration.
#[derive(Debug, Clone, Copy, PartialEq, Eq, Structural)]
pub enum ConflictResolutionStrategy {
    /// The more recent change wins.
    LatestWins,
    LocalWins,
    RemoteWins,
    AutoMerge,
    /// Leave the conflict to the user.
    AskUser,
}

/// Two changes to one element whose values disagree: the remote change first,
/// the local one second.
#[derive(Debug)]
pub struct SyncConflict {
    pub id: String,
    pub element_id: String,
    pub conflicting_changes: Vec<DataChange>,
    pub timestamp: i64,
    pub status: ConflictStatus,
    pub resolution: Option<ConflictResolution>,
}

/// The mathematical value of a [`SyncConflict`].
pub struct ConflictView {
    pub id: Seq<char>,
    pub element_id: Seq<char>,
    pub changes: Seq<ChangeView>,
    pub timestamp: i64,
    pub status: ConflictStatus,
    pub resolution: Option<ConflictResolution>,
}

impl View for SyncConflict {
    type V = ConflictView;

    open spec fn view(&self) -> ConflictView {
        ConflictView {
            id: self.id@,
            element_id: self.element_id@,
            changes: changes_view(self.conflicting_changes@),
            timestamp: self.timestamp,
            status: self.status,
            resolution: self.resolution,
        }
    }
}

impl Clone for SyncConflict {
    fn clone(&self) -> (r: Self)
        ensures
            r@ == self@,
    {
        SyncConflict {
            id: self.id.clone(),
            element_id: self.element_id.clone(),
            conflicting_changes: clone_changes(&self.conflicting_changes),
            timestamp: self.timestamp,
            status: self.status,
            resolution: self.resolution,
        }
    }
}

/// The values of a list of conflicts.
pub open spec fn conflicts_view(v: Seq<SyncConflict>) -> Seq<ConflictView> {
    v.map_values(|c: SyncConflict| c@)
}

/// A copy of a list of conflicts.
pub fn clone_conflicts(v: &Vec<SyncConflict>) -> (r: Vec<SyncConflict>)
    ensures
        conflicts_view(r@) == conflicts_view(v@),
{
    let mut out: Vec<SyncConflict> = Vec::new();
    let mut i: usize = 0;
    while i < v.len()
        invariant
            i <= v@.len(),
            conflicts_view(out@) =~= conflicts_view(v@).take(i as int),
        decreases v@.len() - i,
    {
        let c = v[i].clone();
        let ghost before = out@;
        out.push(c);
        proof {
            assert(out@ =~= before.push(c));
            assert(conflicts_view(out@) =~= conflicts_view(before).push(c@));
            assert(conflicts_view(v@).take(i + 1) =~= conflicts_view(v@).take(i as int).push(v@[i as int]@));
        }
        i = i + 1;
    }
    proof {
        assert(conflicts_view(v@).take(v@.len() as int) =~= conflicts_view(v@));
    }
    out
}

/// The resolution that a strategy picks for a conflict, if it picks one:
/// `LatestWins` takes the remote change when it is strictly newer than the
/// local one, the local change otherwise.
pub open spec fn strategy_resolution(strategy: ConflictResolutionStrategy, c: ConflictView) -> Option<ConflictResolution> {
    match strategy {
        ConflictResolutionStrategy::LatestWins => if c.changes.len() == 2 {
            if c.changes[0].timestamp > c.changes[1].timestamp {
                Some(ConflictResolution::UseRemote)
            } else {
                Some(ConflictResolution::UseLocal)
            }
        } else {
            None
        },
        ConflictResolutionStrategy::LocalWins => Some(ConflictResolution::UseLocal),
        ConflictResolutionStrategy::RemoteWins => Some(ConflictResolution::UseRemote),
        ConflictResolutionStrategy::AutoMerge => Some(ConflictResolution::Merge),
        ConflictResolutionStrategy::AskUser => None,
    }
}

/// The resolution that `strategy` picks for `conflict`; `None` when the user
/// has to decide.
pub fn resolution_for(strategy: ConflictResolutionStrategy, conflict: &SyncConflict) -> (r: Option<ConflictResolution>)
    ensures
        r == strategy_resolution(strategy, conflict@),
{
    match strategy {
        ConflictResolutionStrategy::LatestWins => {
            if conflict.conflicting_changes.len() == 2 {
                if conflict.conflicting_changes[0].timestamp > conflict.conflicting_changes[1].timestamp {
                    Some(ConflictResolution::UseRemote)
                } else {
                    Some(ConflictResolution::UseLocal)
                }
            } else {
                None
            }
        },
        ConflictResolutionStrategy::LocalWins => Some(ConflictResolution::UseLocal),
        ConflictResolutionStrategy::RemoteWins => Some(ConflictResolution::UseRemote),
        ConflictResolutionStrategy::AutoMerge => Some(ConflictResolution::Merge),
        ConflictResolutionStrategy::AskUser => None,
    }
}

/// Configuration of the change engine.
#[derive(Debug, Clone)]
pub struct SyncConfig {
    pub auto_sync: bool,
    /// Seconds between automatic syncs.
    pub sync_interval: u64,
    pub auto_resolve_conflicts: bool,
    pub conflict_resolution_strategy: ConflictResolutionStrategy,
    pub enable_compression: bool,
    pub enable_encryption: bool,
    /// Most changes sent in one batch; must be positive.
    pub max_batch_size: usize,
    /// Seconds allowed for one sync.
    pub sync_timeout: u64,
}

impl Default for SyncConfig {
    fn default() -> (r: Self)
        ensures
            r.auto_sync,
            r.sync_interval == 300,
            r.auto_resolve_conflicts,
            r.conflict_resolution_strategy == ConflictResolutionStrategy::LatestWins,
            r.enable_compression,
            r.enable_encryption,
            r.max_batch_size == 100,
            r.sync_timeout == 60,
    {
        SyncConfig {
            auto_sync: true,
            sync_interval: 300,
            auto_resolve_conflicts: true,
            conflict_resolution_strategy: ConflictResolutionStrategy::LatestWins,
            enable_compression: true,
            enable_encryption: true,
            max_batch_size: 100,
            sync_timeout: 60,
        }
    }
}

/// A snapshot of the engine's state. Times are Unix seconds.
#[derive(Debug, Clone)]
pub struct SyncState {
    pub is_active: bool,
    pub last_sync: Option<i64>,
    pub next_sync: Option<i64>,
    pub syncing_devices: Vec<String>,
    pub pending_changes_count: usize,
    pub pending_conflicts_count: usize,
}

impl Default for SyncState {
    fn default() -> (r: Self)
        ensures
            !r.is_active,
            r.last_sync is None,
            r.next_sync is None,
            r.syncing_devices@.len() == 0,
            r.pending_changes_count == 0,
            r.pending_conflicts_count == 0,
    {
        SyncState {
            is_active: false,
            last_sync: None,
            next_sync: None,
            syncing_devices: Vec::new(),
            pending_changes_count: 0,
            pending_conflicts_count: 0,
        }
    }
}

/// The mathematical value of the engine: its three sets, in order.
pub struct SmartSyncView {
    pub pending: Seq<ChangeView>,
    pub synced: Seq<ChangeView>,
    pub conflicts: Seq<ConflictView>,
}

/// Number of pending conflicts in a list.
pub open spec fn count_pending(c: Seq<ConflictView>) -> nat
    decreases c.len(),
{
    if c.len() == 0 {
        0
    } else {
        count_pending(c.drop_last()) + if c.last().status == ConflictStatus::Pending { 1nat } else { 0nat }
    }
}

/// The change engine.
pub struct SmartSync {
    pending_changes: Vec<DataChange>,
    synced_changes: Vec<DataChange>,
    conflicts: Vec<SyncConflict>,
    last_sync: Option<i64>,
    config: SyncConfig,
}

impl View for SmartSync {
    type V = SmartSyncView;

    closed spec fn view(&self) -> SmartSyncView {
        SmartSyncView {
            pending: changes_view(self.pending_changes@),
            synced: changes_view(self.synced_changes@),
            conflicts: conflicts_view(self.conflicts@),
        }
    }
}

impl SmartSync {
    /// The engine's configuration is usable: batches are not empty.
    pub closed spec fn wf(&self) -> bool {
        self.config.max_batch_size > 0
    }

    /// Largest number of changes sent in one batch.
    pub closed spec fn batch_size(&self) -> usize {
        self.config.max_batch_size
    }

    /// Time of the last completed sync.
    pub closed spec fn last_sync_time(&self) -> Option<i64> {
        self.last_sync
    }

    /// An engine with empty sets.
    pub fn new(config: SyncConfig) -> (r: Self)
        requires
            config.max_batch_size > 0,
        ensures
            r.wf(),
            r@.pending.len() == 0,
            r@.synced.len() == 0,
            r@.conflicts.len() == 0,
            r.batch_size() == config.max_batch_size,
            r.last_sync_time() is None,
    {
        let r = SmartSync {
            pending_changes: Vec::new(),
            synced_changes: Vec::new(),
            conflicts: Vec::new(),
            last_sync: None,
            config,
        };
        assert(r@.pending =~= Seq::<ChangeView>::empty());
        assert(r@.synced =~= Seq::<ChangeView>::empty());
        assert(r@.conflicts =~= Seq::<ConflictView>::empty());
        r
    }

    /// An engine with the default configuration (batches of 100).
    pub fn new_default() -> (r: Self)
        ensures
            r.wf(),
            r@.pending.len() == 0,
            r@.synced.len() == 0,
            r@.conflicts.len() == 0,
            r.batch_size() == 100,
            r.last_sync_time() is None,
    {
        SmartSync::new(SyncConfig::default())
    }

    /// Queues a local change. A change without element id or source device is
    /// refused with `InvalidChange` and nothing changes.
    pub fn add_change(&mut self, change: DataChange) -> (r: Result<(), SyncError>)
        requires
            old(self).wf(),
        ensures
            final(self).wf(),
            final(self).batch_size() == old(self).batch_size(),
            final(self).last_sync_time() == old(self).last_sync_time(),
            change_valid(change@) ==> r is Ok && final(self)@ == (SmartSyncView {
                pending: old(self)@.pending.push(change@),
                ..old(self)@
            }),
            !change_valid(change@) ==> r == Err::<(), SyncError>(SyncError::InvalidChange) && final(self)@ == old(self)@,
    {
        if !change.is_valid() {
            return Err(SyncError::InvalidChange);
        }
        let ghost before = self.pending_changes@;
        let ghost cv = change@;
        self.pending_changes.push(change);
        assert(changes_view(self.pending_changes@) =~= changes_view(before).push(cv));
        Ok(())
    }

    /// A copy of the pending changes, in order.
    pub fn get_pending_changes(&self) -> (r: Vec<DataChange>)
        ensures
            changes_view(r@) == self@.pending,
    {
        clone_changes(&self.pending_changes)
    }

    /// A copy of the synced changes, in order.
    pub fn get_synced_changes(&self) -> (r: Vec<DataChange>)
        ensures
            changes_view(r@) == self@.synced,
    {
        clone_changes(&self.synced_changes)
    }

    /// A copy of the conflicts, in order.
    pub fn get_conflicts(&self) -> (r: Vec<SyncConflict>)
        ensures
            conflicts_view(r@) == self@.conflicts,
    {
        clone_conflicts(&self.conflicts)
    }

    /// Number of conflicts still pending.
    pub fn pending_conflicts_count(&self) -> (r: usize)
        ensures
            r == count_pending(self@.conflicts),
    {
        let mut n: usize = 0;
        let mut i: usize = 0;
        while i < self.conflicts.len()
            invariant
                i <= self.conflicts@.len(),
                n == count_pending(conflicts_view(self.conflicts@).take(i as int)),
                n <= i,
            decreases self.conflicts@.len() - i,
        {
            proof {
                assert(conflicts_view(self.conflicts@).take(i + 1).drop_last() =~= conflicts_view(self.conflicts@).take(i as int));
            }
            if self.conflicts[i].status == ConflictStatus::Pending {
                n = n + 1;
            }
            i = i + 1;
        }
        proof {
            assert(conflicts_view(self.conflicts@).take(self.conflicts@.len() as int) =~= conflicts_view(self.conflicts@));
        }
        n
    }

    /// Statistics of the engine: every synced change counts as one successful sync.
    pub fn get_sync_stats(&self) -> (r: SyncStats)
        ensures
            r.total_syncs == self@.synced.len(),
            r.successful_syncs == self@.synced.len(),
            r.failed_syncs == 0,
            r.total_data_synced == 0,
            r.last_sync_duration is None,
            r.devices_synced_with@.len() == 0,
    {
        let n = self.synced_changes.len() as u64;
        SyncStats {
            total_syncs: n,
            successful_syncs: n,
            failed_syncs: 0,
            total_data_synced: 0,
            last_sync_duration: None,
            devices_synced_with: Vec::new(),
        }
    }

    /// A snapshot of the engine's state.
    pub fn get_sync_state(&self) -> (r: SyncState)
        ensures
            !r.is_active,
            r.last_sync == self.last_sync_time(),
            r.next_sync is None,
            r.syncing_devices@.len() == 0,
            r.pending_changes_count == self@.pending.len(),
            r.pending_conflicts_count == count_pending(self@.conflicts),
    {
        SyncState {
            is_active: false,
            last_sync: self.last_sync,
            next_sync: None,
            syncing_devices: Vec::new(),
            pending_changes_count: self.pending_changes.len(),
            pending_conflicts_count: self.pending_conflicts_count(),
        }
    }
}

// ---------------------------------------------------------------------------
// Conflict detection
// ---------------------------------------------------------------------------

/// Whether two changes to one element conflict. Different versions always
/// conflict (this check takes precedence); otherwise two changes of the same
/// type never conflict, and changes of different types conflict when they come
/// from different devices.
pub open spec fn changes_conflict(a: ChangeView, b: ChangeView) -> bool {
    a.version != b.version || (a.change_type != b.change_type && a.source_device != b.source_device)
}

/// A remote and a local change that clash: same element, conflicting values.
pub open spec fn clash(remote: ChangeView, local: ChangeView) -> bool {
    remote.element_id == local.element_id && changes_conflict(remote, local)
}

/// The clashing pairs of one remote change with the local changes, in order.
pub open spec fn pairs_for(remote: ChangeView, locals: Seq<ChangeView>) -> Seq<(ChangeView, ChangeView)>
    decreases locals.len(),
{
    if locals.len() == 0 {
        Seq::empty()
    } else {
        let prev = pairs_for(remote, locals.drop_last());
        if clash(remote, locals.last()) {
            prev.push((remote, locals.last()))
        } else {
            prev
        }
    }
}

/// The clashing (remote, local) pairs, remote-major order.
pub open spec fn conflict_pairs(remotes: Seq<ChangeView>, locals: Seq<ChangeView>) -> Seq<(ChangeView, ChangeView)>
    decreases remotes.len(),
{
    if remotes.len() == 0 {
        Seq::empty()
    } else {
        conflict_pairs(remotes.drop_last(), locals) + pairs_for(remotes.last(), locals)
    }
}

/// A fresh, pending conflict record for a clashing pair.
pub open spec fn records_pair(c: ConflictView, p: (ChangeView, ChangeView)) -> bool {
    &&& c.element_id == p.0.element_id
    &&& c.changes == seq![p.0, p.1]
    &&& c.status == ConflictStatus::Pending
    &&& c.resolution is None
}

proof fn lemma_push_contains<T>(s: Seq<T>, x: T, y: T)
    ensures
        s.push(x).contains(y) <==> (s.contains(y) || y == x),
{
    if s.push(x).contains(y) {
        let i = choose|i: int| 0 <= i < s.push(x).len() && s.push(x)[i] == y;
        if i < s.len() {
            assert(s[i] == y);
        }
    }
    if s.contains(y) {
        let i = choose|i: int| 0 <= i < s.len() && s[i] == y;
        assert(s.push(x)[i] == y);
    }
    if y == x {
        assert(s.push(x)[s.len() as int] == y);
    }
}

proof fn lemma_concat_contains<T>(s: Seq<T>, t: Seq<T>, y: T)
    ensures
        (s + t).contains(y) <==> (s.contains(y) || t.contains(y)),
{
    if (s + t).contains(y) {
        let i = choose|i: int| 0 <= i < (s + t).len() && (s + t)[i] == y;
        if i < s.len() {
            assert(s[i] == y);
        } else {
            assert(t[i - s.len()] == y);
        }
    }
    if s.contains(y) {
        let i = choose|i: int| 0 <= i < s.len() && s[i] == y;
        assert((s + t)[i] == y);
    }
    if t.contains(y) {
        let i = choose|i: int| 0 <= i < t.len() && t[i] == y;
        assert((s + t)[s.len() + i] == y);
    }
}

proof fn lemma_last_contains<T>(s: Seq<T>, y: T)
    requires
        s.len() > 0,
    ensures
        s.contains(y) <==> (s.drop_last().contains(y) || y == s.last()),
{
    assert(s =~= s.drop_last().push(s.last()));
    lemma_push_contains(s.drop_last(), s.last(), y);
}

/// A pair is among the clashing pairs of `remote` exactly when it starts with
/// `remote` and ends with a local change that clashes with it.
pub proof fn lemma_pairs_for_contains(remote: ChangeView, locals: Seq<ChangeView>, p: (ChangeView, ChangeView))
    ensures
        pairs_for(remote, locals).contains(p) <==> (p.0 == remote && locals.contains(p.1) && clash(p.0, p.1)),
    decreases locals.len(),
{
    if locals.len() == 0 {
        assert(!locals.contains(p.1));
    } else {
        lemma_pairs_for_contains(remote, locals.drop_last(), p);
        lemma_last_contains(locals, p.1);
        let prev = pairs_for(remote, locals.drop_last());
        if clash(remote, locals.last()) {
            lemma_push_contains(prev, (remote, locals.last()), p);
        }
    }
}

/// A pair is among the clashing pairs exactly when its first change is remote,
/// its second local, and the two clash.
pub proof fn lemma_conflict_pairs_contains(remotes: Seq<ChangeView>, locals: Seq<ChangeView>, p: (ChangeView, ChangeView))
    ensures
        conflict_pairs(remotes, locals).contains(p) <==> (remotes.contains(p.0) && locals.contains(p.1) && clash(p.0, p.1)),
    decreases remotes.len(),
{
    if remotes.len() == 0 {
        assert(!remotes.contains(p.0));
    } else {
        lemma_conflict_pairs_contains(remotes.drop_last(), locals, p);
        lemma_pairs_for_contains(remotes.last(), locals, p);
        lemma_concat_contains(conflict_pairs(remotes.drop_last(), locals), pairs_for(remotes.last(), locals), p);
        lemma_last_contains(remotes, p.0);
    }
}

/// Conflict detection does not depend on which side is called local: two
/// changes clash as (remote, local) when the sets are one way round exactly
/// when they clash as (local, remote) with the sets swapped.
pub proof fn lemma_conflict_symmetry(a: Seq<ChangeView>, b: Seq<ChangeView>, x: ChangeView, y: ChangeView)
    ensures
        conflict_pairs(a, b).contains((x, y)) <==> conflict_pairs(b, a).contains((y, x)),
{
    lemma_conflict_pairs_contains(a, b, (x, y));
    lemma_conflict_pairs_contains(b, a, (y, x));
}

/// How many times `x` occurs in `s`.
pub open spec fn occurrences<T>(s: Seq<T>, x: T) -> nat
    decreases s.len(),
{
    if s.len() == 0 {
        0
    } else {
        occurrences(s.drop_last(), x) + if s.last() == x { 1nat } else { 0nat }
    }
}

proof fn lemma_occurrences_push<T>(s: Seq<T>, y: T, x: T)
    ensures
        occurrences(s.push(y), x) == occurrences(s, x) + if y == x { 1nat } else { 0nat },
{
    assert(s.push(y).drop_last() =~= s);
}

proof fn lemma_occurrences_concat<T>(s: Seq<T>, t: Seq<T>, x: T)
    ensures
        occurrences(s + t, x) == occurrences(s, x) + occurrences(t, x),
    decreases t.len(),
{
    if t.len() > 0 {
        lemma_occurrences_concat(s, t.drop_last(), x);
        assert((s + t).drop_last() =~= s + t.drop_last());
    } else {
        assert(s + t =~= s);
    }
}

/// How many times a pair occurs among the clashing pairs of one remote change.
proof fn lemma_pairs_for_occurrences(remote: ChangeView, locals: Seq<ChangeView>, p: (ChangeView, ChangeView))
    ensures
        occurrences(pairs_for(remote, locals), p) == if p.0 == remote && clash(p.0, p.1) { occurrences(locals, p.1) } else { 0 },
    decreases locals.len(),
{
    if locals.len() > 0 {
        lemma_pairs_for_occurrences(remote, locals.drop_last(), p);
        let prev = pairs_for(remote, locals.drop_last());
        if clash(remote, locals.last()) {
            lemma_occurrences_push(prev, (remote, locals.last()), p);
        }
    }
}

/// How many times a pair occurs among the clashing pairs: once for every
/// occurrence of its first change among the remote ones and of its second
/// among the local ones, when the two clash.
pub proof fn lemma_conflict_pairs_occurrences(remotes: Seq<ChangeView>, locals: Seq<ChangeView>, p: (ChangeView, ChangeView))
    ensures
        occurrences(conflict_pairs(remotes, locals), p) == if clash(p.0, p.1) {
            occurrences(remotes, p.0) * occurrences(locals, p.1)
        } else {
            0
        },
    decreases remotes.len(),
{
    if remotes.len() > 0 {
        lemma_conflict_pairs_occurrences(remotes.drop_last(), locals, p);
        lemma_pairs_for_occurrences(remotes.last(), locals, p);
        lemma_occurrences_concat(conflict_pairs(remotes.drop_last(), locals), pairs_for(remotes.last(), locals), p);
        let a = occurrences(remotes.drop_last(), p.0);
        let b = occurrences(locals, p.1);
        let d: nat = if remotes.last() == p.0 { 1 } else { 0 };
        assert(occurrences(remotes, p.0) == a + d);
        assert((a + d) * b == a * b + d * b) by (nonlinear_arith);
        if d == 1 {
            assert(d * b == b);
        } else {
            assert(d * b == 0);
        }
        assert(conflict_pairs(remotes, locals) == conflict_pairs(remotes.drop_last(), locals) + pairs_for(remotes.last(), locals));
    } else {
        assert(0 * occurrences(locals, p.1) == 0);
    }
}

/// Conflict detection does not depend on which side is called local, counted
/// with repetitions: a (remote, local) pair of changes occurs as often among
/// the clashing pairs as the swapped pair does with the sets swapped.
pub proof fn lemma_conflict_multiset_symmetry(a: Seq<ChangeView>, b: Seq<ChangeView>, x: ChangeView, y: ChangeView)
    ensures
        occurrences(conflict_pairs(a, b), (x, y)) == occurrences(conflict_pairs(b, a), (y, x)),
{
    lemma_conflict_pairs_occurrences(a, b, (x, y));
    lemma_conflict_pairs_occurrences(b, a, (y, x));
    let m = occurrences(a, x);
    let n = occurrences(b, y);
    assert(m * n == n * m) by (nonlinear_arith);
}

/// Whether two changes conflict (see [`changes_conflict`]).
pub fn is_conflict(a: &DataChange, b: &DataChange) -> (r: bool)
    ensures
        r == changes_conflict(a@, b@),
{
    a.version != b.version || (a.change_type != b.change_type && !(a.source_device == b.source_device))
}

impl SmartSync {
    /// Compares remote changes with the pending local ones and records a new
    /// pending conflict (fresh id, stamped now) for each clashing pair, in
    /// remote-major order; returns the new conflicts. The change sets are untouched.
    pub fn detect_conflicts(&mut self, remote_changes: Vec<DataChange>) -> (r: Vec<SyncConflict>)
        requires
            old(self).wf(),
        ensures
            final(self).wf(),
            final(self).batch_size() == old(self).batch_size(),
            final(self).last_sync_time() == old(self).last_sync_time(),
            r@.len() == conflict_pairs(changes_view(remote_changes@), old(self)@.pending).len(),
            forall|k: int| 0 <= k < r@.len() ==> records_pair(#[trigger] r@[k]@,
                conflict_pairs(changes_view(remote_changes@), old(self)@.pending)[k]),
            final(self)@ == (SmartSyncView {
                conflicts: old(self)@.conflicts + conflicts_view(r@),
                ..old(self)@
            }),
    {
        let ghost rs = changes_view(remote_changes@);
        let ghost ls = self@.pending;
        let now = now_unix_seconds();
        let mut found: Vec<SyncConflict> = Vec::new();
        let mut i: usize = 0;
        while i < remote_changes.len()
            invariant
                i <= remote_changes@.len(),
                rs == changes_view(remote_changes@),
                ls == changes_view(self.pending_changes@),
                self@ == old(self)@,
                self.wf(),
                self.config.max_batch_size == old(self).config.max_batch_size,
                self.last_sync == old(self).last_sync,
                found@.len() == conflict_pairs(rs.take(i as int), ls).len(),
                forall|k: int| 0 <= k < found@.len() ==> records_pair(#[trigger] found@[k]@, conflict_pairs(rs.take(i as int), ls)[k]),
            decreases remote_changes@.len() - i,
        {
            let ghost base = conflict_pairs(rs.take(i as int), ls);
            let mut j: usize = 0;
            proof {
                assert(ls.take(0) =~= Seq::<ChangeView>::empty());
                assert(base + pairs_for(rs[i as int], ls.take(0)) =~= base);
            }
            while j < self.pending_changes.len()
                invariant
                    i < remote_changes@.len(),
                    j <= self.pending_changes@.len(),
                    rs == changes_view(remote_changes@),
                    ls == changes_view(self.pending_changes@),
                    self@ == old(self)@,
                    self.wf(),
                    self.config.max_batch_size == old(self).config.max_batch_size,
                    self.last_sync == old(self).last_sync,
                    base == conflict_pairs(rs.take(i as int), ls),
                    found@.len() == (base + pairs_for(rs[i as int], ls.take(j as int))).len(),
                    forall|k: int| 0 <= k < found@.len() ==> records_pair(#[trigger] found@[k]@,
                        (base + pairs_for(rs[i as int], ls.take(j as int)))[k]),
                decreases self.pending_changes@.len() - j,
            {
                let ghost cur = base + pairs_for(rs[i as int], ls.take(j as int));
                proof {
                    assert(ls.take(j + 1).drop_last() =~= ls.take(j as int));
                    assert(ls.take(j + 1).last() == ls[j as int]);
                }
                let remote = &remote_changes[i];
                let local = &self.pending_changes[j];
                if remote.element_id == local.element_id && is_conflict(remote, local) {
                    let mut pair: Vec<DataChange> = Vec::new();
                    pair.push(remote.clone());
                    pair.push(local.clone());
                    let conflict = SyncConflict {
                        id: new_uuid(),
                        element_id: remote.element_id.clone(),
                        conflicting_changes: pair,
                        timestamp: now,
                        status: ConflictStatus::Pending,
                        resolution: None,
                    };
                    proof {
                        assert(conflict@.changes =~= seq![rs[i as int], ls[j as int]]);
                        assert(base + pairs_for(rs[i as int], ls.take(j + 1)) =~= cur.push((rs[i as int], ls[j as int])));
                    }
                    found.push(conflict);
                } else {
                    proof {
                        assert(base + pairs_for(rs[i as int], ls.take(j + 1)) =~= cur);
                    }
                }
                j = j + 1;
            }
            proof {
                assert(rs.take(i + 1).drop_last() =~= rs.take(i as int));
                assert(rs.take(i + 1).last() == rs[i as int]);
                assert(ls.take(ls.len() as int) =~= ls);
            }
            i = i + 1;
        }
        proof {
            assert(rs.take(rs.len() as int) =~= rs);
        }
        let mut k: usize = 0;
        while k < found.len()
            invariant
                k <= found@.len(),
                self.wf(),
                self.config.max_batch_size == old(self).config.max_batch_size,
                self.last_sync == old(self).last_sync,
                self@.pending == old(self)@.pending,
                self@.synced == old(self)@.synced,
                self@.conflicts == old(self)@.conflicts + conflicts_view(found@).take(k as int),
            decreases found@.len() - k,
        {
            let c = found[k].clone();
            let ghost before = self.conflicts@;
            self.conflicts.push(c);
            proof {
                assert(self.conflicts@ =~= before.push(c));
                assert(conflicts_view(self.conflicts@) =~= conflicts_view(before).push(c@));
                assert(conflicts_view(found@).take(k + 1) =~= conflicts_view(found@).take(k as int).push(found@[k as int]@));
            }
            k = k + 1;
        }
        proof {
            assert(conflicts_view(found@).take(found@.len() as int) =~= conflicts_view(found@));
        }
        found
    }
}

// ---------------------------------------------------------------------------
// Transfer
// ---------------------------------------------------------------------------

/// The frame that carries a change: its (already encrypted) data, empty without data.
pub open spec fn frame_of(c: ChangeView) -> FrameView {
    FrameView::Binary(
        match c.element_data {
            Some(d) => d,
            None => Seq::empty(),
        },
    )
}

/// The frames that carry a list of changes, in order.
pub open spec fn frames_of(s: Seq<ChangeView>) -> Seq<FrameView> {
    s.map_values(|c: ChangeView| frame_of(c))
}

/// Addition that stops at the largest `u64`.
pub open spec fn sat_add(a: u64, b: nat) -> u64 {
    if a + b <= u64::MAX {
        (a + b) as u64
    } else {
        u64::MAX
    }
}

/// Total bytes of data of a list of changes (saturating).
pub open spec fn total_size(s: Seq<ChangeView>) -> u64
    decreases s.len(),
{
    if s.len() == 0 {
        0
    } else {
        sat_add(total_size(s.drop_last()), data_len(s.last()))
    }
}

/// What a sync run does to the engine, and whether it succeeds. With nothing
/// pending it is a successful no-op. Otherwise, over a live connection every
/// pending change is sent and moves, in order, to the synced set; without one
/// the first batch fails and nothing moves.
pub open spec fn sync_outcome(s: SmartSyncView, connected: bool) -> (SmartSyncView, bool) {
    if s.pending.len() == 0 {
        (s, true)
    } else if connected {
        (SmartSyncView { pending: Seq::empty(), synced: s.synced + s.pending, ..s }, true)
    } else {
        (s, false)
    }
}

/// Size of the next batch: the configured size, or what is pending if less.
pub open spec fn batch_len(s: SmartSyncView, batch: nat) -> nat {
    if batch < s.pending.len() { batch } else { s.pending.len() }
}

/// What one batch step does to the engine, and whether it succeeds: over a
/// live connection (or with nothing pending) the next batch moves, in order,
/// to the synced set; without one nothing moves.
pub open spec fn batch_outcome(s: SmartSyncView, batch: nat, connected: bool) -> (SmartSyncView, bool) {
    if connected || s.pending.len() == 0 {
        (SmartSyncView {
            pending: s.pending.skip(batch_len(s, batch) as int),
            synced: s.synced + s.pending.take(batch_len(s, batch) as int),
            ..s
        }, true)
    } else {
        (s, false)
    }
}

/// Partial success: when a batch went through and the connection is lost
/// before the next one, the next step fails, and the changes of the first
/// batch stay synced while the rest stay pending.
pub proof fn lemma_partial_success(s: SmartSyncView, batch: nat)
    requires
        batch > 0,
        s.pending.len() > batch,
    ensures
        sync_outcome(s, false).1 == false,
        batch_outcome(s, batch, true).1,
        !batch_outcome(batch_outcome(s, batch, true).0, batch, false).1,
        batch_outcome(batch_outcome(s, batch, true).0, batch, false).0.synced == s.synced + s.pending.take(batch as int),
        batch_outcome(batch_outcome(s, batch, true).0, batch, false).0.pending == s.pending.skip(batch as int),
{
}

/// Sync is idempotent: a second run right after a successful one, with no new
/// change in between, succeeds, transfers nothing and changes nothing.
pub proof fn lemma_sync_twice(s: SmartSyncView, first_connected: bool, second_connected: bool)
    requires
        sync_outcome(s, first_connected).1,
    ensures
        sync_outcome(s, first_connected).0.pending.len() == 0,
        sync_outcome(sync_outcome(s, first_connected).0, second_connected).1,
        sync_outcome(sync_outcome(s, first_connected).0, second_connected).0 == sync_outcome(s, first_connected).0,
{
}

impl SmartSync {
    /// Moves the first `count` pending changes, in order, to the synced set.
    fn move_to_synced(&mut self, count: usize)
        requires
            count <= old(self)@.pending.len(),
        ensures
            final(self)@.pending == old(self)@.pending.skip(count as int),
            final(self)@.synced == old(self)@.synced + old(self)@.pending.take(count as int),
            final(self)@.conflicts == old(self)@.conflicts,
            final(self).config.max_batch_size == old(self).config.max_batch_size,
            final(self).last_sync == old(self).last_sync,
    {
        let ghost p0 = self.pending_changes@;
        let ghost s0 = self.synced_changes@;
        let rest = self.pending_changes.split_off(count);
        self.synced_changes.append(&mut self.pending_changes);
        self.pending_changes = rest;
        proof {
            assert(self.pending_changes@ =~= p0.skip(count as int));
            assert(self.synced_changes@ =~= s0 + p0.take(count as int));
            assert(changes_view(self.pending_changes@) =~= changes_view(p0).skip(count as int));
            assert(changes_view(self.synced_changes@) =~= changes_view(s0) + changes_view(p0).take(count as int));
        }
    }

    /// Sends the next batch (the first pending changes, at most the configured
    /// batch size) to `device` over `conn`, one binary frame per change, and
    /// moves exactly that batch to the synced set. Without a live connection
    /// the step fails and nothing moves; with nothing pending it is a
    /// successful no-op. A caller driving the transport between steps sees a
    /// partial sync: batches moved by earlier steps stay synced.
    pub fn sync_next_batch(&mut self, device: &DeviceInfo, conn: &mut P2PConnection) -> (r: SyncResult)
        requires
            old(self).wf(),
        ensures
            final(self).wf(),
            final(self).batch_size() == old(self).batch_size(),
            (final(self)@, r.success) == batch_outcome(old(self)@, old(self).batch_size() as nat, old(conn).state_view() is Connected),
            r.device_id@ == device.id@,
            r.success ==> r.elements_synced == batch_len(old(self)@, old(self).batch_size() as nat)
                && r.data_size == total_size(old(self)@.pending.take(batch_len(old(self)@, old(self).batch_size() as nat) as int))
                && final(conn).outbox() == old(conn).outbox()
                    + frames_of(old(self)@.pending.take(batch_len(old(self)@, old(self).batch_size() as nat) as int)),
            !r.success ==> r.elements_synced == 0
                && (r.error_message matches Some(m) && m@ == connection_error_text(ConnectionError::NotConnected))
                && final(conn).outbox() == old(conn).outbox(),
            final(conn).state_view() == old(conn).state_view(),
            final(conn).remote() == old(conn).remote(),
            final(conn).inbox() == old(conn).inbox(),
    {
        let len = self.pending_changes.len();
        let batch = self.config.max_batch_size;
        let take = if batch < len { batch } else { len };
        let ghost p0 = self@.pending;
        let ghost out0 = conn.outbox();
        let mut size: u64 = 0;
        let mut k: usize = 0;
        proof {
            assert(out0 + frames_of(p0.take(0)) =~= out0);
        }
        while k < take
            invariant
                self@ == old(self)@,
                self.wf(),
                self.config.max_batch_size == batch,
                self.last_sync == old(self).last_sync,
                p0 == self@.pending,
                take <= p0.len(),
                k <= take,
                size == total_size(p0.take(k as int)),
                conn.outbox() == out0 + frames_of(p0.take(k as int)),
                out0 == old(conn).outbox(),
                k > 0 ==> conn.state_view() is Connected,
                conn.state_view() == old(conn).state_view(),
                conn.remote() == old(conn).remote(),
                conn.inbox() == old(conn).inbox(),
            decreases take - k,
        {
            let change = &self.pending_changes[k];
            let payload = match &change.element_data {
                Some(d) => clone_bytes(d),
                None => Vec::new(),
            };
            let d = change.data_size() as u64;
            proof {
                assert(frame_of(p0[k as int]) == FrameView::Binary(payload@));
            }
            match conn.send_data(payload) {
                Ok(()) => {},
                Err(e) => {
                    proof {
                        assert(conn.outbox() =~= out0);
                    }
                    return SyncResult::failure(device.id.clone(), e.message());
                },
            }
            proof {
                assert(p0.take(k + 1).drop_last() =~= p0.take(k as int));
                assert(p0.take(k + 1).last() == p0[k as int]);
                assert(frames_of(p0.take(k + 1)) =~= frames_of(p0.take(k as int)).push(frame_of(p0[k as int])));
            }
            size = if size <= u64::MAX - d { size + d } else { u64::MAX };
            k = k + 1;
        }
        self.move_to_synced(take);
        proof {
            if len == 0 {
                assert(self@.pending =~= p0);
                assert(self@.synced =~= old(self)@.synced);
            }
        }
        if take > 0 {
            self.last_sync = Some(now_unix_seconds());
        }
        SyncResult::success(device.id.clone(), take as u64, size, 0)
    }

    /// Sends the pending changes to `device` over `conn`, in batches of at
    /// most the configured size, one binary frame per change. Each batch that
    /// is fully sent moves to the synced set; a batch that fails ends the run
    /// with a failure carrying the device id and the error, and what earlier
    /// batches moved stays synced. With nothing pending the run is a
    /// successful no-op. The duration is left at 0 for the caller to fill in.
    pub fn sync_with_device(&mut self, device: &DeviceInfo, conn: &mut P2PConnection) -> (r: SyncResult)
        requires
            old(self).wf(),
        ensures
            final(self).wf(),
            final(self).batch_size() == old(self).batch_size(),
            (final(self)@, r.success) == sync_outcome(old(self)@, old(conn).state_view() is Connected),
            r.device_id@ == device.id@,
            r.duration == 0,
            r.success ==> r.elements_synced == old(self)@.pending.len() && r.data_size == total_size(old(self)@.pending)
                && r.error_message is None
                && final(conn).outbox() == old(conn).outbox() + frames_of(old(self)@.pending),
            !r.success ==> r.elements_synced == 0 && r.data_size == 0
                && (r.error_message matches Some(m) && m@ == connection_error_text(ConnectionError::NotConnected))
                && final(conn).outbox() == old(conn).outbox(),
            r.success && old(self)@.pending.len() > 0 ==> final(self).last_sync_time() is Some,
            !(r.success && old(self)@.pending.len() > 0) ==> final(self).last_sync_time() == old(self).last_sync_time(),
            final(conn).state_view() == old(conn).state_view(),
            final(conn).remote() == old(conn).remote(),
            final(conn).inbox() == old(conn).inbox(),
            final(conn).timeout() == old(conn).timeout(),
            final(conn).started_at() == old(conn).started_at(),
    {
        let n = self.pending_changes.len();
        if n == 0 {
            proof {
                assert(old(conn).outbox() + frames_of(old(self)@.pending) =~= old(conn).outbox());
            }
            return SyncResult::success(device.id.clone(), 0, 0, 0);
        }
        let batch = self.config.max_batch_size;
        let ghost p0 = self@.pending;
        let ghost s0 = self@.synced;
        let ghost out0 = conn.outbox();
        let mut size: u64 = 0;
        let mut moved: usize = 0;
        proof {
            assert(p0.skip(0) =~= p0);
            assert(s0 + p0.take(0) =~= s0);
            assert(out0 + frames_of(p0.take(0)) =~= out0);
        }
        while self.pending_changes.len() > 0
            invariant
                self.wf(),
                batch == self.config.max_batch_size,
                self.config.max_batch_size == old(self).config.max_batch_size,
                self.last_sync == old(self).last_sync,
                old(self)@ == (SmartSyncView { pending: p0, synced: s0, ..old(self)@ }),
                self@.conflicts == old(self)@.conflicts,
                moved <= p0.len(),
                p0.len() == n,
                moved + self@.pending.len() == p0.len(),
                self@.pending == p0.skip(moved as int),
                self@.synced == s0 + p0.take(moved as int),
                size == total_size(p0.take(moved as int)),
                conn.outbox() == out0 + frames_of(p0.take(moved as int)),
                out0 == old(conn).outbox(),
                moved > 0 ==> conn.state_view() is Connected,
                conn.state_view() == old(conn).state_view(),
                conn.remote() == old(conn).remote(),
                conn.inbox() == old(conn).inbox(),
                conn.timeout() == old(conn).timeout(),
                conn.started_at() == old(conn).started_at(),
            decreases self.pending_changes@.len(),
        {
            let len = self.pending_changes.len();
            let take = if batch < len { batch } else { len };
            let mut k: usize = 0;
            while k < take
                invariant
                    self.wf(),
                    batch == self.config.max_batch_size,
                    self.config.max_batch_size == old(self).config.max_batch_size,
                    self.last_sync == old(self).last_sync,
                    old(self)@ == (SmartSyncView { pending: p0, synced: s0, ..old(self)@ }),
                    self@.conflicts == old(self)@.conflicts,
                    0 < take <= self@.pending.len(),
                    k <= take,
                    moved + self@.pending.len() == p0.len(),
                    self@.pending == p0.skip(moved as int),
                    self@.synced == s0 + p0.take(moved as int),
                    size == total_size(p0.take(moved + k)),
                    conn.outbox() == out0 + frames_of(p0.take(moved + k)),
                    out0 == old(conn).outbox(),
                    moved + k > 0 ==> conn.state_view() is Connected,
                    conn.state_view() == old(conn).state_view(),
                    conn.remote() == old(conn).remote(),
                    conn.inbox() == old(conn).inbox(),
                    conn.timeout() == old(conn).timeout(),
                    conn.started_at() == old(conn).started_at(),
                decreases take - k,
            {
                let change = &self.pending_changes[k];
                let payload = match &change.element_data {
                    Some(d) => clone_bytes(d),
                    None => Vec::new(),
                };
                let d = change.data_size() as u64;
                proof {
                    assert(self@.pending[k as int] == p0[moved + k]);
                    assert(frame_of(p0[moved + k]) == FrameView::Binary(payload@));
                }
                match conn.send_data(payload) {
                    Ok(()) => {},
                    Err(e) => {
                        proof {
                            assert(moved + k == 0);
                            assert(self@.pending =~= p0);
                            assert(self@.synced =~= s0);
                            assert(conn.outbox() =~= out0);
                        }
                        return SyncResult::failure(device.id.clone(), e.message());
                    },
                }
                proof {
                    assert(p0.take(moved + k + 1).drop_last() =~= p0.take(moved + k));
                    assert(p0.take(moved + k + 1).last() == p0[moved + k]);
                    assert(frames_of(p0.take(moved + k + 1)) =~= frames_of(p0.take(moved + k)).push(frame_of(p0[moved + k])));
                }
                size = if size <= u64::MAX - d { size + d } else { u64::MAX };
                k = k + 1;
            }
            self.move_to_synced(take);
            proof {
                assert(p0.skip(moved as int).skip(take as int) =~= p0.skip(moved + take));
                assert(p0.take(moved as int) + p0.skip(moved as int).take(take as int) =~= p0.take(moved + take));
            }
            moved = moved + take;
        }
        proof {
            assert(p0.take(moved as int) =~= p0);
            assert(self@.pending =~= Seq::<ChangeView>::empty());
        }
        self.last_sync = Some(now_unix_seconds());
        SyncResult::success(device.id.clone(), moved as u64, size, 0)
    }

    /// Marks every conflict with the given id as resolved with `resolution`.
    pub fn resolve_conflict(&mut self, conflict_id: &str, resolution: ConflictResolution) -> (r: Result<(), SyncError>)
        requires
            old(self).wf(),
        ensures
            r is Ok,
            final(self).wf(),
            final(self).batch_size() == old(self).batch_size(),
            final(self).last_sync_time() == old(self).last_sync_time(),
            final(self)@ == (SmartSyncView {
                conflicts: old(self)@.conflicts.map_values(|c: ConflictView| resolved(c, conflict_id@, resolution)),
                ..old(self)@
            }),
    {
        let ghost c0 = self@.conflicts;
        let mut i: usize = 0;
        while i < self.conflicts.len()
            invariant
                self.wf(),
                self.config.max_batch_size == old(self).config.max_batch_size,
                self.last_sync == old(self).last_sync,
                self@.pending == old(self)@.pending,
                self@.synced == old(self)@.synced,
                c0 == old(self)@.conflicts,
                i <= self@.conflicts.len(),
                self@.conflicts.len() == c0.len(),
                forall|k: int| 0 <= k < i ==> self@.conflicts[k] == resolved(c0[k], conflict_id@, resolution),
                forall|k: int| i <= k < c0.len() ==> self@.conflicts[k] == c0[k],
            decreases self.conflicts@.len() - i,
        {
            if crate::device_info::text_eq(self.conflicts[i].id.as_str(), conflict_id) {
                let mut c = self.conflicts[i].clone();
                c.status = ConflictStatus::Resolved;
                c.resolution = Some(resolution);
                let ghost before = self.conflicts@;
                self.conflicts.set(i, c);
                proof {
                    assert(self.conflicts@ =~= before.update(i as int, c));
                    assert(conflicts_view(self.conflicts@) =~= conflicts_view(before).update(i as int, c@));
                }
            }
            i = i + 1;
        }
        proof {
            assert(self@.conflicts =~= c0.map_values(|c: ConflictView| resolved(c, conflict_id@, resolution)));
        }
        Ok(())
    }
}

/// A conflict after resolving the one with id `id`.
pub open spec fn resolved(c: ConflictView, id: Seq<char>, resolution: ConflictResolution) -> ConflictView {
    if c.id == id {
        ConflictView { status: ConflictStatus::Resolved, resolution: Some(resolution), ..c }
    } else {
        c
    }
}

// ---------------------------------------------------------------------------
// Retention
// ---------------------------------------------------------------------------

/// Whether a record stamped `ts` is younger than `max_age` seconds at `now`.
pub open spec fn is_recent(ts: i64, now: i64, max_age: u64) -> bool {
    now - ts < max_age
}

/// The synced changes kept by a cleanup at `now`: the recent ones, in order.
pub open spec fn kept_changes(s: Seq<ChangeView>, now: i64, max_age: u64) -> Seq<ChangeView>
    decreases s.len(),
{
    if s.len() == 0 {
        s
    } else {
        let prev = kept_changes(s.drop_last(), now, max_age);
        if is_recent(s.last().timestamp, now, max_age) {
            prev.push(s.last())
        } else {
            prev
        }
    }
}

/// The conflicts kept by a cleanup at `now`: the recent ones and every
/// pending one, whatever its age, in order.
pub open spec fn kept_conflicts(s: Seq<ConflictView>, now: i64, max_age: u64) -> Seq<ConflictView>
    decreases s.len(),
{
    if s.len() == 0 {
        s
    } else {
        let prev = kept_conflicts(s.drop_last(), now, max_age);
        if is_recent(s.last().timestamp, now, max_age) || s.last().status == ConflictStatus::Pending {
            prev.push(s.last())
        } else {
            prev
        }
    }
}

/// The engine after a cleanup at `now`: pending changes untouched.
pub open spec fn cleaned(s: SmartSyncView, now: i64, max_age: u64) -> SmartSyncView {
    SmartSyncView {
        pending: s.pending,
        synced: kept_changes(s.synced, now, max_age),
        conflicts: kept_conflicts(s.conflicts, now, max_age),
    }
}

/// Whether `ts` is younger than `max_age` seconds at `now`.
pub fn recent(ts: i64, now: i64, max_age: u64) -> (r: bool)
    ensures
        r == is_recent(ts, now, max_age),
{
    (now as i128) - (ts as i128) < max_age as i128
}

impl SmartSync {
    /// Drops the synced changes and the non-pending conflicts that are
    /// `max_age` seconds old or more at `now`. Pending changes and pending
    /// conflicts are never dropped.
    pub fn cleanup_changes_before(&mut self, now: i64, max_age: u64)
        requires
            old(self).wf(),
        ensures
            final(self).wf(),
            final(self).batch_size() == old(self).batch_size(),
            final(self).last_sync_time() == old(self).last_sync_time(),
            final(self)@ == cleaned(old(self)@, now, max_age),
    {
        let ghost s0 = self@.synced;
        let ghost c0 = self@.conflicts;
        let mut kept: Vec<DataChange> = Vec::new();
        let mut i: usize = 0;
        while i < self.synced_changes.len()
            invariant
                i <= self.synced_changes@.len(),
                s0 == changes_view(self.synced_changes@),
                self@ == old(self)@,
                changes_view(kept@) == kept_changes(s0.take(i as int), now, max_age),
            decreases self.synced_changes@.len() - i,
        {
            proof {
                assert(s0.take(i + 1).drop_last() =~= s0.take(i as int));
                assert(s0.take(i + 1).last() == s0[i as int]);
            }
            if recent(self.synced_changes[i].timestamp, now, max_age) {
                let c = self.synced_changes[i].clone();
                let ghost before = kept@;
                kept.push(c);
                proof {
                    assert(kept@ =~= before.push(c));
                    assert(changes_view(kept@) =~= changes_view(before).push(c@));
                }
            }
            i = i + 1;
        }
        proof {
            assert(s0.take(s0.len() as int) =~= s0);
        }
        let mut kept_c: Vec<SyncConflict> = Vec::new();
        let mut j: usize = 0;
        while j < self.conflicts.len()
            invariant
                j <= self.conflicts@.len(),
                c0 == conflicts_view(self.conflicts@),
                self@ == old(self)@,
                conflicts_view(kept_c@) == kept_conflicts(c0.take(j as int), now, max_age),
            decreases self.conflicts@.len() - j,
        {
            proof {
                assert(c0.take(j + 1).drop_last() =~= c0.take(j as int));
                assert(c0.take(j + 1).last() == c0[j as int]);
            }
            if recent(self.conflicts[j].timestamp, now, max_age) || self.conflicts[j].status == ConflictStatus::Pending {
                let c = self.conflicts[j].clone();
                let ghost before = kept_c@;
                kept_c.push(c);
                proof {
                    assert(kept_c@ =~= before.push(c));
                    assert(conflicts_view(kept_c@) =~= conflicts_view(before).push(c@));
                }
            }
            j = j + 1;
        }
        proof {
            assert(c0.take(c0.len() as int) =~= c0);
        }
        self.synced_changes = kept;
        self.conflicts = kept_c;
    }

    /// The same cleanup at the current time.
    pub fn cleanup_old_changes(&mut self, max_age: u64)
        requires
            old(self).wf(),
        ensures
            final(self).wf(),
            final(self).batch_size() == old(self).batch_size(),
            final(self).last_sync_time() == old(self).last_sync_time(),
            exists|now: i64| final(self)@ == cleaned(old(self)@, now, max_age),
    {
        let now = now_unix_seconds();
        self.cleanup_changes_before(now, max_age);
    }
}

} // verus!
