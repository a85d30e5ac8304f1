//! Identity, capability and status of the devices that take part in sync.
use vstd::prelude::*;
use vstd::string::StringExecFns;
use crate::clock::{new_uuid, now_unix_seconds, UUID_STR_LEN};
use crate::host::{has_infix, user_name};
use core::cmp::Ordering;
use vstd::std_specs::iter::IteratorSpec;

verus! {

// ---------------------------------------------------------------------------
// Text helpers shared by the sync modules
// ---------------------------------------------------------------------------

/// Decimal digits of a natural number, most significant first.
pub open spec fn decimal(n: nat) -> Seq<char>
    decreases n,
{
    if n < 10 {
        seq![digit_char(n)]
    } else {
        decimal(n / 10).push(digit_char(n % 10))
    }
}

/// The ASCII digit for a value below ten.
pub open spec fn digit_char(d: nat) -> char {
    if d == 0 { '0' } else if d == 1 { '1' } else if d == 2 { '2' } else if d == 3 { '3' }
    else if d == 4 { '4' } else if d == 5 { '5' } else if d == 6 { '6' } else if d == 7 { '7' }
    else if d == 8 { '8' } else { '9' }
}

/// The one-character text of a digit.
fn digit_text(d: u16) -> (r: &'static str)
    requires
        d < 10,
    ensures
        r@ == seq![digit_char(d as nat)],
{
    proof {
        reveal_strlit("0");
        reveal_strlit("1");
        reveal_strlit("2");
        reveal_strlit("3");
        reveal_strlit("4");
        reveal_strlit("5");
        reveal_strlit("6");
        reveal_strlit("7");
        reveal_strlit("8");
        reveal_strlit("9");
    }
    if d == 0 { "0" } else if d == 1 { "1" } else if d == 2 { "2" } else if d == 3 { "3" }
    else if d == 4 { "4" } else if d == 5 { "5" } else if d == 6 { "6" } else if d == 7 { "7" }
    else if d == 8 { "8" } else { "9" }
}

/// The decimal digits of a port number.
fn u16_decimal(n: u16) -> (r: String)
    ensures
        r@ == decimal(n as nat),
    decreases n,
{
    if n < 10 {
        digit_text(n).to_owned()
    } else {
        let mut s = u16_decimal(n / 10);
        s.append(digit_text(n % 10));
        s
    }
}

/// Whether two strings hold the same characters.
pub fn text_eq(a: &str, b: &str) -> (r: bool)
    ensures
        r == (a@ == b@),
{
    a.to_owned() == b.to_owned()
}

/// The characters of a list of key/value string pairs.
pub open spec fn pairs_view(v: Seq<(String, String)>) -> Seq<(Seq<char>, Seq<char>)> {
    v.map_values(|p: (String, String)| (p.0@, p.1@))
}

/// The value under `key` in a list of pairs: the latest entry wins.
pub open spec fn lookup(m: Seq<(Seq<char>, Seq<char>)>, key: Seq<char>) -> Option<Seq<char>>
    decreases m.len(),
{
    if m.len() == 0 {
        None
    } else if m.last().0 == key {
        Some(m.last().1)
    } else {
        lookup(m.drop_last(), key)
    }
}

/// A copy of a list of pairs.
pub fn clone_pairs(v: &Vec<(String, String)>) -> (r: Vec<(String, String)>)
    ensures
        pairs_view(r@) == pairs_view(v@),
{
    let mut out: Vec<(String, String)> = Vec::new();
    let mut i: usize = 0;
    while i < v.len()
        invariant
            i <= v@.len(),
            pairs_view(out@) =~= pairs_view(v@.take(i as int)),
        decreases v@.len() - i,
    {
        let k = v[i].0.clone();
        let x = v[i].1.clone();
        let ghost before = out@;
        out.push((k, x));
        proof {
            assert(v@.take(i + 1) =~= v@.take(i as int).push(v@[i as int]));
            assert(out@ =~= before.push((k, x)));
            assert(pairs_view(out@) =~= pairs_view(before).push((k@, x@)));
            assert(pairs_view(v@.take(i + 1)) =~= pairs_view(v@.take(i as int)).push((k@, x@)));
        }
        i = i + 1;
    }
    proof {
        assert(v@.take(v@.len() as int) =~= v@);
    }
    out
}

/// Adds or replaces the value under `key`.
pub fn insert_pair(m: &mut Vec<(String, String)>, key: String, value: String)
    ensures
        pairs_view(final(m)@) == pairs_view(old(m)@).push((key@, value@)),
        lookup(pairs_view(final(m)@), key@) == Some(value@),
        forall|k: Seq<char>| k != key@ ==> lookup(pairs_view(final(m)@), k) == lookup(pairs_view(old(m)@), k),
{
    let ghost k0 = key@;
    let ghost v0 = value@;
    m.push((key, value));
    proof {
        assert(pairs_view(m@) =~= pairs_view(old(m)@).push((k0, v0)));
        assert(pairs_view(m@).drop_last() =~= pairs_view(old(m)@));
    }
}

/// The value under `key`, if any (the latest entry wins).
pub fn find_pair<'a>(m: &'a Vec<(String, String)>, key: &str) -> (r: Option<&'a String>)
    ensures
        match r {
            Some(v) => lookup(pairs_view(m@), key@) == Some(v@),
            None => lookup(pairs_view(m@), key@) is None,
        },
{
    let mut i: usize = m.len();
    proof {
        assert(m@.take(m@.len() as int) =~= m@);
    }
    while i > 0
        invariant
            i <= m@.len(),
            lookup(pairs_view(m@), key@) == lookup(pairs_view(m@.take(i as int)), key@),
        decreases i,
    {
        let j = i - 1;
        proof {
            assert(pairs_view(m@.take(i as int)).drop_last() =~= pairs_view(m@.take(j as int)));
            assert(pairs_view(m@.take(i as int)).last() == (m@[j as int].0@, m@[j as int].1@));
        }
        if text_eq(m[j].0.as_str(), key) {
            return Some(&m[j].1);
        }
        i = j;
    }
    proof {
        assert(pairs_view(m@.take(0)) =~= Seq::<(Seq<char>, Seq<char>)>::empty());
    }
    None
}

// ---------------------------------------------------------------------------
// Device type
// ---------------------------------------------------------------------------

/// Kinds of device.
#[derive(Debug, Clone, Copy, PartialEq, Eq, Hash, Structural)]
pub enum DeviceType {
    Mobile,
    Desktop,
    Laptop,
    Tablet,
    Server,
    Unknown,
}

/// The canonical (wire) name of a device type.
pub open spec fn device_type_name(t: DeviceType) -> Seq<char> {
    match t {
        DeviceType::Mobile => "Mobile"@,
        DeviceType::Desktop => "Desktop"@,
        DeviceType::Laptop => "Laptop"@,
        DeviceType::Tablet => "Tablet"@,
        DeviceType::Server => "Server"@,
        DeviceType::Unknown => "Unknown"@,
    }
}

/// The device type whose canonical name is `s`, if any.
pub open spec fn parse_device_type(s: Seq<char>) -> Option<DeviceType> {
    if s == "Mobile"@ {
        Some(DeviceType::Mobile)
    } else if s == "Desktop"@ {
        Some(DeviceType::Desktop)
    } else if s == "Laptop"@ {
        Some(DeviceType::Laptop)
    } else if s == "Tablet"@ {
        Some(DeviceType::Tablet)
    } else if s == "Server"@ {
        Some(DeviceType::Server)
    } else if s == "Unknown"@ {
        Some(DeviceType::Unknown)
    } else {
        None
    }
}

/// Localised label of a device type.
pub open spec fn device_type_label(t: DeviceType) -> Seq<char> {
    match t {
        DeviceType::Mobile => "Móvil"@,
        DeviceType::Desktop => "Escritorio"@,
        DeviceType::Laptop => "Portátil"@,
        DeviceType::Tablet => "Tablet"@,
        DeviceType::Server => "Servidor"@,
        DeviceType::Unknown => "Desconocido"@,
    }
}

/// Icon of a device type.
pub open spec fn device_type_icon(t: DeviceType) -> Seq<char> {
    match t {
        DeviceType::Mobile => "📱"@,
        DeviceType::Desktop => "🖥️"@,
        DeviceType::Laptop => "💻"@,
        DeviceType::Tablet => "📱"@,
        DeviceType::Server => "🖥️"@,
        DeviceType::Unknown => "❓"@,
    }
}

impl DeviceType {
    /// The canonical name, as announced on the network.
    pub fn as_str(&self) -> (r: &'static str)
        ensures
            r@ == device_type_name(*self),
    {
        match self {
            DeviceType::Mobile => "Mobile",
            DeviceType::Desktop => "Desktop",
            DeviceType::Laptop => "Laptop",
            DeviceType::Tablet => "Tablet",
            DeviceType::Server => "Server",
            DeviceType::Unknown => "Unknown",
        }
    }

    /// The canonical name as an owned string.
    pub fn to_string(&self) -> (r: String)
        ensures
            r@ == device_type_name(*self),
    {
        self.as_str().to_owned()
    }

    /// Parses a canonical name; anything else gives `None`.
    pub fn parse(s: &str) -> (r: Option<DeviceType>)
        ensures
            r == parse_device_type(s@),
    {
        if text_eq(s, "Mobile") {
            Some(DeviceType::Mobile)
        } else if text_eq(s, "Desktop") {
            Some(DeviceType::Desktop)
        } else if text_eq(s, "Laptop") {
            Some(DeviceType::Laptop)
        } else if text_eq(s, "Tablet") {
            Some(DeviceType::Tablet)
        } else if text_eq(s, "Server") {
            Some(DeviceType::Server)
        } else if text_eq(s, "Unknown") {
            Some(DeviceType::Unknown)
        } else {
            None
        }
    }

    /// Icon for the device type.
    pub fn emoji(&self) -> (r: &'static str)
        ensures
            r@ == device_type_icon(*self),
    {
        match self {
            DeviceType::Mobile => "📱",
            DeviceType::Desktop => "🖥️",
            DeviceType::Laptop => "💻",
            DeviceType::Tablet => "📱",
            DeviceType::Server => "🖥️",
            DeviceType::Unknown => "❓",
        }
    }

    /// Localised label for the device type.
    pub fn display_name(&self) -> (r: &'static str)
        ensures
            r@ == device_type_label(*self),
    {
        match self {
            DeviceType::Mobile => "Móvil",
            DeviceType::Desktop => "Escritorio",
            DeviceType::Laptop => "Portátil",
            DeviceType::Tablet => "Tablet",
            DeviceType::Server => "Servidor",
            DeviceType::Unknown => "Desconocido",
        }
    }
}

// ---------------------------------------------------------------------------
// Device status
// ---------------------------------------------------------------------------

/// Connection status of a device.
#[derive(Debug, PartialEq, Eq)]
pub enum DeviceStatus {
    Disconnected,
    Connected,
    Syncing,
    Error(String),
    Waiting,
}

/// The mathematical value of a [`DeviceStatus`].
pub enum DeviceStatusView {
    Disconnected,
    Connected,
    Syncing,
    Error(Seq<char>),
    Waiting,
}

impl View for DeviceStatus {
    type V = DeviceStatusView;

    open spec fn view(&self) -> DeviceStatusView {
        match self {
            DeviceStatus::Disconnected => DeviceStatusView::Disconnected,
            DeviceStatus::Connected => DeviceStatusView::Connected,
            DeviceStatus::Syncing => DeviceStatusView::Syncing,
            DeviceStatus::Error(m) => DeviceStatusView::Error(m@),
            DeviceStatus::Waiting => DeviceStatusView::Waiting,
        }
    }
}

impl Clone for DeviceStatus {
    fn clone(&self) -> (r: Self)
        ensures
            r@ == self@,
    {
        match self {
            DeviceStatus::Disconnected => DeviceStatus::Disconnected,
            DeviceStatus::Connected => DeviceStatus::Connected,
            DeviceStatus::Syncing => DeviceStatus::Syncing,
            DeviceStatus::Error(m) => DeviceStatus::Error(m.clone()),
            DeviceStatus::Waiting => DeviceStatus::Waiting,
        }
    }
}

/// Localised label of a status.
pub open spec fn status_label(s: DeviceStatusView) -> Seq<char> {
    match s {
        DeviceStatusView::Disconnected => "Desconectado"@,
        DeviceStatusView::Connected => "Conectado"@,
        DeviceStatusView::Syncing => "Sincronizando"@,
        DeviceStatusView::Error(_) => "Error"@,
        DeviceStatusView::Waiting => "Esperando"@,
    }
}

/// Icon of a status.
pub open spec fn status_icon(s: DeviceStatusView) -> Seq<char> {
    match s {
        DeviceStatusView::Disconnected => "🔴"@,
        DeviceStatusView::Connected => "🟢"@,
        DeviceStatusView::Syncing => "🔄"@,
        DeviceStatusView::Error(_) => "❌"@,
        DeviceStatusView::Waiting => "⏳"@,
    }
}

impl DeviceStatus {
    /// Icon for the status.
    pub fn emoji(&self) -> (r: &'static str)
        ensures
            r@ == status_icon(self@),
    {
        match self {
            DeviceStatus::Disconnected => "🔴",
            DeviceStatus::Connected => "🟢",
            DeviceStatus::Syncing => "🔄",
            DeviceStatus::Error(_) => "❌",
            DeviceStatus::Waiting => "⏳",
        }
    }

    /// Localised label for the status.
    pub fn display_name(&self) -> (r: &'static str)
        ensures
            r@ == status_label(self@),
    {
        match self {
            DeviceStatus::Disconnected => "Desconectado",
            DeviceStatus::Connected => "Conectado",
            DeviceStatus::Syncing => "Sincronizando",
            DeviceStatus::Error(_) => "Error",
            DeviceStatus::Waiting => "Esperando",
        }
    }

    pub fn is_connected(&self) -> (r: bool)
        ensures
            r == (self@ is Connected),
    {
        matches!(self, DeviceStatus::Connected)
    }

    pub fn is_syncing(&self) -> (r: bool)
        ensures
            r == (self@ is Syncing),
    {
        matches!(self, DeviceStatus::Syncing)
    }

    pub fn has_error(&self) -> (r: bool)
        ensures
            r == (self@ is Error),
    {
        matches!(self, DeviceStatus::Error(_))
    }
}

// ---------------------------------------------------------------------------
// Device information
// ---------------------------------------------------------------------------

/// What a device can take part in.
#[derive(Debug)]
pub struct DeviceCapabilities {
    pub can_sync_passwords: bool,
    pub can_sync_settings: bool,
    pub can_sync_files: bool,
    pub can_generate_passwords: bool,
    pub can_autocomplete: bool,
    pub can_use_shortcuts: bool,
    /// Lowest application version the device works with.
    pub min_app_version: String,
}

impl DeviceCapabilities {
    /// Whether two capability records hold the same values.
    pub open spec fn same_as(&self, o: &DeviceCapabilities) -> bool {
        &&& self.can_sync_passwords == o.can_sync_passwords
        &&& self.can_sync_settings == o.can_sync_settings
        &&& self.can_sync_files == o.can_sync_files
        &&& self.can_generate_passwords == o.can_generate_passwords
        &&& self.can_autocomplete == o.can_autocomplete
        &&& self.can_use_shortcuts == o.can_use_shortcuts
        &&& self.min_app_version@ == o.min_app_version@
    }

    /// The default capabilities: passwords, settings and generation; version 1.0.0.
    pub open spec fn is_default(&self) -> bool {
        &&& self.can_sync_passwords
        &&& self.can_sync_settings
        &&& !self.can_sync_files
        &&& self.can_generate_passwords
        &&& !self.can_autocomplete
        &&& !self.can_use_shortcuts
        &&& self.min_app_version@ == "1.0.0"@
    }
}

impl Clone for DeviceCapabilities {
    fn clone(&self) -> (r: Self)
        ensures
            r.same_as(self),
    {
        DeviceCapabilities {
            can_sync_passwords: self.can_sync_passwords,
            can_sync_settings: self.can_sync_settings,
            can_sync_files: self.can_sync_files,
            can_generate_passwords: self.can_generate_passwords,
            can_autocomplete: self.can_autocomplete,
            can_use_shortcuts: self.can_use_shortcuts,
            min_app_version: self.min_app_version.clone(),
        }
    }
}

impl Default for DeviceCapabilities {
    fn default() -> (r: Self)
        ensures
            r.is_default(),
    {
        DeviceCapabilities {
            can_sync_passwords: true,
            can_sync_settings: true,
            can_sync_files: false,
            can_generate_passwords: true,
            can_autocomplete: false,
            can_use_shortcuts: false,
            min_app_version: "1.0.0".to_owned(),
        }
    }
}

/// A known device, local or remote. Times are whole seconds since the Unix epoch.
#[derive(Debug)]
pub struct DeviceInfo {
    pub id: String,
    pub name: String,
    pub device_type: DeviceType,
    pub os: String,
    pub os_version: String,
    pub app_version: String,
    pub ip_address: Option<String>,
    pub port: Option<u16>,
    pub status: DeviceStatus,
    /// When the device was last heard of.
    pub last_seen: Option<i64>,
    /// When the device last completed a sync.
    pub last_sync: Option<i64>,
    pub capabilities: DeviceCapabilities,
    /// Extra attributes; a later entry for a key replaces an earlier one.
    pub metadata: Vec<(String, String)>,
    pub is_trusted: bool,
    pub is_owner: bool,
}

/// The characters of an optional string.
pub open spec fn opt_text(s: Option<String>) -> Option<Seq<char>> {
    match s {
        Some(t) => Some(t@),
        None => None,
    }
}

/// A copy of an optional string.
pub fn clone_opt_text(s: &Option<String>) -> (r: Option<String>)
    ensures
        opt_text(r) == opt_text(*s),
{
    match s {
        Some(t) => Some(t.clone()),
        None => None,
    }
}

impl DeviceInfo {
    /// Whether two records describe the same device with the same values.
    pub open spec fn same_as(&self, o: &DeviceInfo) -> bool {
        &&& self.id@ == o.id@
        &&& self.name@ == o.name@
        &&& self.device_type == o.device_type
        &&& self.os@ == o.os@
        &&& self.os_version@ == o.os_version@
        &&& self.app_version@ == o.app_version@
        &&& opt_text(self.ip_address) == opt_text(o.ip_address)
        &&& self.port == o.port
        &&& self.status@ == o.status@
        &&& self.last_seen == o.last_seen
        &&& self.last_sync == o.last_sync
        &&& self.capabilities.same_as(&o.capabilities)
        &&& pairs_view(self.metadata@) == pairs_view(o.metadata@)
        &&& self.is_trusted == o.is_trusted
        &&& self.is_owner == o.is_owner
    }

    /// Everything but the status and the last-seen time is unchanged.
    pub open spec fn same_identity(&self, o: &DeviceInfo) -> bool {
        &&& self.id@ == o.id@
        &&& self.name@ == o.name@
        &&& self.device_type == o.device_type
        &&& self.os@ == o.os@
        &&& self.os_version@ == o.os_version@
        &&& self.app_version@ == o.app_version@
        &&& opt_text(self.ip_address) == opt_text(o.ip_address)
        &&& self.port == o.port
        &&& self.capabilities.same_as(&o.capabilities)
        &&& pairs_view(self.metadata@) == pairs_view(o.metadata@)
        &&& self.is_trusted == o.is_trusted
        &&& self.is_owner == o.is_owner
    }

    /// A new record for the local device: fresh id, seen now, disconnected,
    /// not trusted, owner.
    pub fn new(
        name: String,
        device_type: DeviceType,
        os: String,
        os_version: String,
        app_version: String,
    ) -> (r: Self)
        ensures
            r.id@.len() == UUID_STR_LEN,
            r.name@ == name@,
            r.device_type == device_type,
            r.os@ == os@,
            r.os_version@ == os_version@,
            r.app_version@ == app_version@,
            r.ip_address is None,
            r.port is None,
            r.status@ is Disconnected,
            r.last_seen is Some,
            r.last_sync is None,
            r.capabilities.is_default(),
            r.metadata@.len() == 0,
            !r.is_trusted,
            r.is_owner,
    {
        let id = new_uuid();
        let now = now_unix_seconds();
        DeviceInfo {
            id,
            name,
            device_type,
            os,
            os_version,
            app_version,
            ip_address: None,
            port: None,
            status: DeviceStatus::Disconnected,
            last_seen: Some(now),
            last_sync: None,
            capabilities: DeviceCapabilities::default(),
            metadata: Vec::new(),
            is_trusted: false,
            is_owner: true,
        }
    }

    /// A new record for a device found on the network: fresh id, seen now,
    /// disconnected, neither trusted nor owner.
    pub fn from_network(
        name: String,
        device_type: DeviceType,
        os: String,
        os_version: String,
        app_version: String,
        ip_address: String,
        port: u16,
    ) -> (r: Self)
        ensures
            r.id@.len() == UUID_STR_LEN,
            r.name@ == name@,
            r.device_type == device_type,
            r.os@ == os@,
            r.os_version@ == os_version@,
            r.app_version@ == app_version@,
            opt_text(r.ip_address) == Some(ip_address@),
            r.port == Some(port),
            r.status@ is Disconnected,
            r.last_seen is Some,
            r.last_sync is None,
            r.capabilities.is_default(),
            r.metadata@.len() == 0,
            !r.is_trusted,
            !r.is_owner,
    {
        let id = new_uuid();
        let now = now_unix_seconds();
        DeviceInfo {
            id,
            name,
            device_type,
            os,
            os_version,
            app_version,
            ip_address: Some(ip_address),
            port: Some(port),
            status: DeviceStatus::Disconnected,
            last_seen: Some(now),
            last_sync: None,
            capabilities: DeviceCapabilities::default(),
            metadata: Vec::new(),
            is_trusted: false,
            is_owner: false,
        }
    }

    /// "<icon> <name> (<type label>)".
    pub fn display_name(&self) -> (r: String)
        ensures
            r@ == device_type_icon(self.device_type) + " "@ + self.name@ + " ("@
                + device_type_label(self.device_type) + ")"@,
    {
        let mut s = self.device_type.emoji().to_owned();
        s.append(" ");
        s.append(self.name.as_str());
        s.append(" (");
        s.append(self.device_type.display_name());
        s.append(")");
        s
    }

    /// "<icon> <status label>".
    pub fn display_status(&self) -> (r: String)
        ensures
            r@ == status_icon(self.status@) + " "@ + status_label(self.status@),
    {
        let mut s = self.status.emoji().to_owned();
        s.append(" ");
        s.append(self.status.display_name());
        s
    }

    /// A device can take a sync when it is connected and neither syncing nor failed.
    pub fn is_available_for_sync(&self) -> (r: bool)
        ensures
            r == (self.status@ is Connected),
    {
        self.status.is_connected() && !self.status.is_syncing() && !self.status.has_error()
    }

    /// Every version is accepted for now.
    pub fn is_compatible(&self) -> (r: bool)
        ensures
            r,
    {
        true
    }

    /// Sets the status and records that the device was seen now.
    pub fn update_status(&mut self, new_status: DeviceStatus)
        ensures
            final(self).status@ == new_status@,
            final(self).last_seen is Some,
            final(self).last_sync == old(self).last_sync,
            final(self).same_identity(old(self)),
    {
        self.status = new_status;
        self.last_seen = Some(now_unix_seconds());
    }

    /// Records a completed sync now; the device is connected.
    pub fn mark_synced(&mut self)
        ensures
            final(self).status@ is Connected,
            final(self).last_sync is Some,
            final(self).last_seen == old(self).last_seen,
            final(self).same_identity(old(self)),
    {
        self.last_sync = Some(now_unix_seconds());
        self.status = DeviceStatus::Connected;
    }

    /// Sets the attribute `key` to `value`.
    pub fn add_metadata(&mut self, key: String, value: String)
        ensures
            lookup(pairs_view(final(self).metadata@), key@) == Some(value@),
            forall|k: Seq<char>| k != key@ ==> lookup(pairs_view(final(self).metadata@), k)
                == lookup(pairs_view(old(self).metadata@), k),
    {
        insert_pair(&mut self.metadata, key, value);
    }

    /// The attribute `key`, if set.
    pub fn get_metadata(&self, key: &str) -> (r: Option<&String>)
        ensures
            match r {
                Some(v) => lookup(pairs_view(self.metadata@), key@) == Some(v@),
                None => lookup(pairs_view(self.metadata@), key@) is None,
            },
    {
        find_pair(&self.metadata, key)
    }

    /// Same device when name and type agree.
    pub fn is_same_device(&self, other: &DeviceInfo) -> (r: bool)
        ensures
            r == (self.name@ == other.name@ && self.device_type == other.device_type),
    {
        self.name == other.name && self.device_type == other.device_type
    }

    /// Seconds from the last sync to `now`, if the device has synced.
    pub fn time_since_last_sync(&self, now: i64) -> (r: Option<i128>)
        ensures
            r == match self.last_sync {
                Some(t) => Some((now - t) as i128),
                None => None::<i128>,
            },
    {
        match self.last_sync {
            Some(t) => Some(now as i128 - t as i128),
            None => None,
        }
    }

    /// Seconds from the last sighting to `now`; a device never seen counts as seen now.
    pub fn time_since_last_seen(&self, now: i64) -> (r: i128)
        ensures
            r == match self.last_seen {
                Some(t) => now - t,
                None => 0,
            },
    {
        match self.last_seen {
            Some(t) => now as i128 - t as i128,
            None => 0,
        }
    }

    /// "ip:port", "ip", "Puerto port" or nothing, after what is known.
    pub fn connection_info(&self) -> (r: Option<String>)
        ensures
            match (self.ip_address, self.port) {
                (Some(ip), Some(p)) => r matches Some(s) && s@ == ip@ + ":"@ + decimal(p as nat),
                (Some(ip), None) => r matches Some(s) && s@ == ip@,
                (None, Some(p)) => r matches Some(s) && s@ == "Puerto "@ + decimal(p as nat),
                (None, None) => r is None,
            },
    {
        match (&self.ip_address, self.port) {
            (Some(ip), Some(port)) => {
                let mut s = ip.clone();
                s.append(":");
                let digits = u16_decimal(port);
                s.append(digits.as_str());
                Some(s)
            },
            (Some(ip), None) => Some(ip.clone()),
            (None, Some(port)) => {
                let mut s = "Puerto ".to_owned();
                let digits = u16_decimal(port);
                s.append(digits.as_str());
                Some(s)
            },
            (None, None) => None,
        }
    }
}

impl Clone for DeviceInfo {
    fn clone(&self) -> (r: Self)
        ensures
            r.same_as(self),
    {
        DeviceInfo {
            id: self.id.clone(),
            name: self.name.clone(),
            device_type: self.device_type,
            os: self.os.clone(),
            os_version: self.os_version.clone(),
            app_version: self.app_version.clone(),
            ip_address: clone_opt_text(&self.ip_address),
            port: self.port,
            status: self.status.clone(),
            last_seen: self.last_seen,
            last_sync: self.last_sync,
            capabilities: self.capabilities.clone(),
            metadata: clone_pairs(&self.metadata),
            is_trusted: self.is_trusted,
            is_owner: self.is_owner,
        }
    }
}

// ---------------------------------------------------------------------------
// Local configuration
// ---------------------------------------------------------------------------

/// How this device takes part in sync.
#[derive(Debug, Clone, Copy, PartialEq, Eq, Structural)]
pub struct SyncPreferences {
    pub auto_sync: bool,
    /// Seconds between automatic syncs.
    pub auto_sync_interval: u64,
    pub wifi_only: bool,
    pub background_sync: bool,
    pub notify_changes: bool,
}

impl Default for SyncPreferences {
    fn default() -> (r: Self)
        ensures
            r == (SyncPreferences {
                auto_sync: true,
                auto_sync_interval: 300,
                wifi_only: true,
                background_sync: true,
                notify_changes: true,
            }),
    {
        SyncPreferences {
            auto_sync: true,
            auto_sync_interval: 300,
            wifi_only: true,
            background_sync: true,
            notify_changes: true,
        }
    }
}

/// Network settings of this device.
#[derive(Debug, Clone)]
pub struct NetworkConfig {
    /// Port to listen on; 0 lets the system choose.
    pub listen_port: u16,
    /// Interfaces to use; empty means all.
    pub allowed_interfaces: Vec<String>,
    /// Networks to use; empty means all.
    pub allowed_networks: Vec<String>,
    pub use_mdns: bool,
    pub use_upnp: bool,
}

impl Default for NetworkConfig {
    fn default() -> (r: Self)
        ensures
            r.listen_port == 0,
            r.allowed_interfaces@.len() == 0,
            r.allowed_networks@.len() == 0,
            r.use_mdns,
            !r.use_upnp,
    {
        NetworkConfig {
            listen_port: 0,
            allowed_interfaces: Vec::new(),
            allowed_networks: Vec::new(),
            use_mdns: true,
            use_upnp: false,
        }
    }
}

/// Settings of the local user and device.
#[derive(Debug, Clone)]
pub struct LocalDeviceConfig {
    pub user_name: String,
    pub user_email: Option<String>,
    pub sync_preferences: SyncPreferences,
    pub network_config: NetworkConfig,
}

impl Default for LocalDeviceConfig {
    /// The current user, no e-mail, default preferences and network settings.
    fn default() -> (r: Self)
        ensures
            r.user_email is None,
            r.sync_preferences.auto_sync_interval == 300,
            r.network_config.use_mdns,
    {
        LocalDeviceConfig {
            user_name: user_name(),
            user_email: None,
            sync_preferences: SyncPreferences::default(),
            network_config: NetworkConfig::default(),
        }
    }
}

/// The local device with its credentials and settings.
#[derive(Debug, Clone)]
pub struct LocalDeviceInfo {
    pub device: DeviceInfo,
    pub public_key: String,
    pub certificate: Option<String>,
    pub local_config: LocalDeviceConfig,
}

// ---------------------------------------------------------------------------
// Orderings of devices
// ---------------------------------------------------------------------------

/// The characters of a text, one by one.
pub fn chars_of(s: &str) -> (r: Vec<char>)
    ensures
        r@ == s@,
{
    broadcast use vstd::string::axiom_spec_iter, vstd::string::next_postcondition;
    let mut it = s.chars();
    let mut out: Vec<char> = Vec::new();
    loop
        invariant
            it.obeys_prophetic_iter_laws(),
            it.decrease() is Some,
            out@ + it.remaining() == s@,
        decreases it.decrease()->0,
    {
        match it.next() {
            Some(c) => {
                proof {
                    assert(out@.push(c) + it.remaining() =~= s@);
                }
                out.push(c);
            },
            None => {
                proof {
                    assert(out@ =~= s@);
                }
                return out;
            },
        }
    }
}

/// Whether `needle` occurs in `hay` at position `at`.
fn occurs_at(hay: &Vec<char>, needle: &Vec<char>, at: usize) -> (r: bool)
    requires
        at + needle@.len() <= hay@.len(),
    ensures
        r == (hay@.subrange(at as int, at + needle@.len()) == needle@),
{
    let total = hay.len();
    let mut k: usize = 0;
    while k < needle.len()
        invariant
            total == hay@.len(),
            at + needle@.len() <= hay@.len(),
            k <= needle@.len(),
            hay@.subrange(at as int, at + k) == needle@.take(k as int),
        decreases needle@.len() - k,
    {
        if hay[at + k] != needle[k] {
            proof {
                assert(hay@.subrange(at as int, at + needle@.len())[k as int] == hay@[at + k]);
            }
            return false;
        }
        proof {
            assert(hay@.subrange(at as int, at + k + 1) =~= hay@.subrange(at as int, at + k).push(hay@[at + k]));
            assert(needle@.take(k + 1) =~= needle@.take(k as int).push(needle@[k as int]));
        }
        k = k + 1;
    }
    proof {
        assert(needle@.take(needle@.len() as int) =~= needle@);
    }
    true
}

/// Whether `needle` occurs in `hay` as a contiguous run of characters.
pub fn contains_text(hay: &str, needle: &str) -> (r: bool)
    ensures
        r == has_infix(hay@, needle@),
{
    let h = chars_of(hay);
    let n = chars_of(needle);
    if n.len() > h.len() {
        return false;
    }
    let last = h.len() - n.len();
    let mut i: usize = 0;
    loop
        invariant
            h@ == hay@,
            n@ == needle@,
            last == h@.len() - n@.len(),
            i <= last,
            forall|j: int| 0 <= j < i ==> #[trigger] h@.subrange(j, j + n@.len()) != n@,
        decreases last - i,
    {
        if occurs_at(&h, &n, i) {
            return true;
        }
        if i == last {
            return false;
        }
        i = i + 1;
    }
}

/// Lexicographic order of texts by character code; for UTF-8 this is the
/// byte order that `String`'s `Ord` uses.
pub open spec fn text_order(a: Seq<char>, b: Seq<char>) -> Ordering
    decreases a.len(),
{
    if a.len() == 0 {
        if b.len() == 0 { Ordering::Equal } else { Ordering::Less }
    } else if b.len() == 0 {
        Ordering::Greater
    } else if a[0] < b[0] {
        Ordering::Less
    } else if a[0] > b[0] {
        Ordering::Greater
    } else {
        text_order(a.drop_first(), b.drop_first())
    }
}

/// Compares two texts in [`text_order`].
pub fn compare_text(a: &str, b: &str) -> (r: Ordering)
    ensures
        r == text_order(a@, b@),
{
    let x = chars_of(a);
    let y = chars_of(b);
    let mut i: usize = 0;
    proof {
        assert(x@.skip(0) =~= x@);
        assert(y@.skip(0) =~= y@);
    }
    while i < x.len() && i < y.len()
        invariant
            i <= x@.len(),
            i <= y@.len(),
            x@ == a@,
            y@ == b@,
            text_order(a@, b@) == text_order(x@.skip(i as int), y@.skip(i as int)),
        decreases x@.len() - i,
    {
        let c = x[i];
        let d = y[i];
        proof {
            assert(x@.skip(i as int)[0] == c);
            assert(y@.skip(i as int)[0] == d);
            assert(x@.skip(i as int).drop_first() =~= x@.skip(i + 1));
            assert(y@.skip(i as int).drop_first() =~= y@.skip(i + 1));
        }
        if c < d {
            return Ordering::Less;
        }
        if c > d {
            return Ordering::Greater;
        }
        i = i + 1;
    }
    if i < x.len() {
        Ordering::Greater
    } else if i < y.len() {
        Ordering::Less
    } else {
        Ordering::Equal
    }
}

/// The order of two instants, earlier first.
pub open spec fn time_order(a: i64, b: i64) -> Ordering {
    if a < b {
        Ordering::Less
    } else if a > b {
        Ordering::Greater
    } else {
        Ordering::Equal
    }
}

/// Orders devices by last-seen time, most recent first; a device with no
/// time counts as seen now.
pub struct DeviceLastSeenComparator;

/// The last-seen order at `now`.
pub open spec fn last_seen_order(a: DeviceInfo, b: DeviceInfo, now: i64) -> Ordering {
    let ta = match a.last_seen { Some(t) => t, None => now };
    let tb = match b.last_seen { Some(t) => t, None => now };
    time_order(tb, ta)
}

impl DeviceLastSeenComparator {
    /// Compares at a given `now`.
    pub fn compare_at(a: &DeviceInfo, b: &DeviceInfo, now: i64) -> (r: Ordering)
        ensures
            r == last_seen_order(*a, *b, now),
    {
        let ta = match a.last_seen { Some(t) => t, None => now };
        let tb = match b.last_seen { Some(t) => t, None => now };
        if tb < ta {
            Ordering::Less
        } else if tb > ta {
            Ordering::Greater
        } else {
            Ordering::Equal
        }
    }

    /// Compares at the current time.
    pub fn compare(a: &DeviceInfo, b: &DeviceInfo) -> (r: Ordering)
        ensures
            exists|now: i64| r == last_seen_order(*a, *b, now),
    {
        let now = now_unix_seconds();
        DeviceLastSeenComparator::compare_at(a, b, now)
    }
}

/// Orders devices by name.
pub struct DeviceNameComparator;

impl DeviceNameComparator {
    pub fn compare(a: &DeviceInfo, b: &DeviceInfo) -> (r: Ordering)
        ensures
            r == text_order(a.name@, b.name@),
    {
        compare_text(a.name.as_str(), b.name.as_str())
    }
}

/// Orders devices by the canonical name of their type.
pub struct DeviceTypeComparator;

impl DeviceTypeComparator {
    pub fn compare(a: &DeviceInfo, b: &DeviceInfo) -> (r: Ordering)
        ensures
            r == text_order(device_type_name(a.device_type), device_type_name(b.device_type)),
    {
        compare_text(a.device_type.as_str(), b.device_type.as_str())
    }
}

} // verus!
