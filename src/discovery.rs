//! Presence of devices on the local network: the announcement this device
//! makes, the records received from peers, and the set of discovered devices.
//!
//! The multicast-DNS transport runs outside; it hands each resolved peer record
//! here as key/value attributes and publishes the attributes built here.
use vstd::prelude::*;
use crate::clock::{now_unix_seconds, UUID_STR_LEN};
use crate::device_info::{lookup, pairs_view, parse_device_type, DeviceInfo, DeviceType};
use crate::host::{has_infix, host_name, lower_of, lowercase, platform_name};

verus! {

/// The multicast-DNS service type under which devices announce themselves.
pub const SERVICE_TYPE: &'static str = "_alohopass._tcp";

/// Seconds after which a discovered device that was not heard of again is dropped.
pub const DISCOVERY_MAX_AGE: u64 = 300;

/// Configuration of the announcement of this device.
#[derive(Debug, Clone)]
pub struct DiscoveryConfig {
    pub port: u16,
    pub device_name: String,
    pub device_type: DeviceType,
    pub os: String,
    pub os_version: String,
    pub app_version: String,
    /// Seconds between announcements.
    pub announce_interval: u64,
    pub ttl: u32,
    pub use_mdns: bool,
}

/// The device type suggested by a lowercase host name.
pub open spec fn device_type_for_host(lower: Seq<char>) -> DeviceType {
    if has_infix(lower, "macbook"@) {
        DeviceType::Laptop
    } else if has_infix(lower, "desktop"@) || has_infix(lower, "pc"@) {
        DeviceType::Desktop
    } else if has_infix(lower, "laptop"@) {
        DeviceType::Laptop
    } else if has_infix(lower, "phone"@) || has_infix(lower, "mobile"@) {
        DeviceType::Mobile
    } else if has_infix(lower, "tablet"@) {
        DeviceType::Tablet
    } else {
        DeviceType::Unknown
    }
}

/// The device type suggested by an already lowercased host name.
pub fn device_type_from_lower(lower: &str) -> (r: DeviceType)
    ensures
        r == device_type_for_host(lower@),
{
    if crate::device_info::contains_text(lower, "macbook") {
        DeviceType::Laptop
    } else if crate::device_info::contains_text(lower, "desktop") || crate::device_info::contains_text(lower, "pc") {
        DeviceType::Desktop
    } else if crate::device_info::contains_text(lower, "laptop") {
        DeviceType::Laptop
    } else if crate::device_info::contains_text(lower, "phone") || crate::device_info::contains_text(lower, "mobile") {
        DeviceType::Mobile
    } else if crate::device_info::contains_text(lower, "tablet") {
        DeviceType::Tablet
    } else {
        DeviceType::Unknown
    }
}

/// The device type suggested by a host name, ignoring case.
pub fn detect_device_type(hostname: &str) -> (r: DeviceType)
    ensures
        r == device_type_for_host(lower_of(hostname@)),
{
    let lower = lowercase(hostname);
    device_type_from_lower(lower.as_str())
}

impl DiscoveryConfig {
    /// The announcement of a host: its name and type (guessed from the name),
    /// its platform, an unknown OS version, every 30 s with a TTL of 120 s.
    pub fn for_host(hostname: String, platform: String, app_version: String) -> (r: Self)
        ensures
            r.port == 0,
            r.device_name@ == hostname@,
            r.device_type == device_type_for_host(lower_of(hostname@)),
            r.os@ == platform@,
            r.os_version@ == "Unknown"@,
            r.app_version@ == app_version@,
            r.announce_interval == 30,
            r.ttl == 120,
            r.use_mdns,
    {
        let device_type = detect_device_type(hostname.as_str());
        DiscoveryConfig {
            port: 0,
            device_name: hostname,
            device_type,
            os: platform,
            os_version: "Unknown".to_owned(),
            app_version,
            announce_interval: 30,
            ttl: 120,
            use_mdns: true,
        }
    }
}

impl Default for DiscoveryConfig {
    /// The announcement of this host.
    fn default() -> (r: Self)
        ensures
            r.port == 0,
            r.os_version@ == "Unknown"@,
            r.announce_interval == 30,
            r.ttl == 120,
            r.use_mdns,
    {
        DiscoveryConfig::for_host(host_name(), platform_name(), "0.1.0".to_owned())
    }
}

/// The value of an attribute of a peer record, or "Unknown" when it is missing.
pub open spec fn attribute_or_unknown(props: Seq<(Seq<char>, Seq<char>)>, key: Seq<char>) -> Seq<char> {
    match lookup(props, key) {
        Some(v) => v,
        None => "Unknown"@,
    }
}

/// The device type announced in a peer record; `Unknown` when missing or unreadable.
pub open spec fn announced_type(props: Seq<(Seq<char>, Seq<char>)>) -> DeviceType {
    match lookup(props, "device_type"@) {
        Some(v) => match parse_device_type(v) {
            Some(t) => t,
            None => DeviceType::Unknown,
        },
        None => DeviceType::Unknown,
    }
}


/// The value of an attribute, or "Unknown".
fn attribute(props: &Vec<(String, String)>, key: &str) -> (r: String)
    ensures
        r@ == attribute_or_unknown(pairs_view(props@), key@),
{
    match crate::device_info::find_pair(props, key) {
        Some(v) => v.clone(),
        None => "Unknown".to_owned(),
    }
}

/// Copies of a list of device records.
pub fn clone_devices(v: &Vec<DeviceInfo>) -> (r: Vec<DeviceInfo>)
    ensures
        r@.len() == v@.len(),
        forall|i: int| 0 <= i < v@.len() ==> (#[trigger] r@[i]).same_as(&v@[i]),
{
    let mut out: Vec<DeviceInfo> = Vec::new();
    let mut i: usize = 0;
    while i < v.len()
        invariant
            i <= v@.len(),
            out@.len() == i,
            forall|k: int| 0 <= k < i ==> (#[trigger] out@[k]).same_as(&v@[k]),
        decreases v@.len() - i,
    {
        out.push(v[i].clone());
        i = i + 1;
    }
    out
}

/// Whether a device seen at `last_seen` is kept by discovery's cleanup at
/// `now`: a device with no time is always kept.
pub open spec fn fresh_for_discovery(last_seen: Option<i64>, now: i64, max_age: u64) -> bool {
    match last_seen {
        Some(t) => now - t < max_age,
        None => true,
    }
}

/// The devices kept by discovery's cleanup, in order.
pub open spec fn kept_discovered(s: Seq<DeviceInfo>, now: i64, max_age: u64) -> Seq<DeviceInfo>
    decreases s.len(),
{
    if s.len() == 0 {
        s
    } else {
        let prev = kept_discovered(s.drop_last(), now, max_age);
        if fresh_for_discovery(s.last().last_seen, now, max_age) {
            prev.push(s.last())
        } else {
            prev
        }
    }
}

/// A list of device records without those with the given id, in order.
pub open spec fn without_id(s: Seq<DeviceInfo>, id: Seq<char>) -> Seq<DeviceInfo>
    decreases s.len(),
{
    if s.len() == 0 {
        s
    } else {
        let prev = without_id(s.drop_last(), id);
        if s.last().id@ == id {
            prev
        } else {
            prev.push(s.last())
        }
    }
}

/// No two records of a list share an id.
pub open spec fn unique_ids(s: Seq<DeviceInfo>) -> bool {
    forall|i: int, j: int| 0 <= i < j < s.len() ==> (#[trigger] s[i]).id@ != (#[trigger] s[j]).id@
}

/// Every record of `r` is a record of `s`.
pub open spec fn drawn_from(r: Seq<DeviceInfo>, s: Seq<DeviceInfo>) -> bool {
    forall|i: int| 0 <= i < r.len() ==> s.contains(#[trigger] r[i])
}

/// Keeping the last record of a list after a filtered prefix keeps ids unique.
pub proof fn lemma_keep_last(prev: Seq<DeviceInfo>, s: Seq<DeviceInfo>)
    requires
        s.len() > 0,
        drawn_from(prev, s.drop_last()),
    ensures
        drawn_from(prev.push(s.last()), s),
        unique_ids(s) && unique_ids(prev) ==> unique_ids(prev.push(s.last())),
{
    let t = prev.push(s.last());
    assert forall|i: int| 0 <= i < t.len() implies s.contains(#[trigger] t[i]) by {
        if i < prev.len() {
            let k = choose|k: int| 0 <= k < s.drop_last().len() && s.drop_last()[k] == prev[i];
            assert(s[k] == t[i]);
        } else {
            assert(s[s.len() - 1] == t[i]);
        }
    }
    if unique_ids(s) && unique_ids(prev) {
        assert forall|i: int, j: int| 0 <= i < j < t.len() implies (#[trigger] t[i]).id@ != (#[trigger] t[j]).id@ by {
            if j == prev.len() {
                let k = choose|k: int| 0 <= k < s.drop_last().len() && s.drop_last()[k] == prev[i];
                assert(s[k] == t[i]);
                assert(s[s.len() - 1] == t[j]);
            } else {
                assert(t[i] == prev[i] && t[j] == prev[j]);
            }
        }
    }
}

/// Dropping the last record of a list after a filtered prefix.
pub proof fn lemma_skip_last(prev: Seq<DeviceInfo>, s: Seq<DeviceInfo>)
    requires
        s.len() > 0,
        drawn_from(prev, s.drop_last()),
    ensures
        drawn_from(prev, s),
{
    assert forall|i: int| 0 <= i < prev.len() implies s.contains(#[trigger] prev[i]) by {
        let k = choose|k: int| 0 <= k < s.drop_last().len() && s.drop_last()[k] == prev[i];
        assert(s[k] == prev[i]);
    }
}

/// Removing an id keeps the rest of the records, none of them with that id.
pub proof fn lemma_without_id(s: Seq<DeviceInfo>, id: Seq<char>)
    ensures
        drawn_from(without_id(s, id), s),
        unique_ids(s) ==> unique_ids(without_id(s, id)),
        forall|i: int| 0 <= i < without_id(s, id).len() ==> (#[trigger] without_id(s, id)[i]).id@ != id,
    decreases s.len(),
{
    if s.len() > 0 {
        lemma_without_id(s.drop_last(), id);
        let prev = without_id(s.drop_last(), id);
        if unique_ids(s) {
            assert(unique_ids(s.drop_last()));
        }
        if s.last().id@ == id {
            lemma_skip_last(prev, s);
        } else {
            lemma_keep_last(prev, s);
            assert(without_id(s, id) == prev.push(s.last()));
        }
    }
}

/// Discovery's cleanup keeps some of the records.
pub proof fn lemma_kept_discovered(s: Seq<DeviceInfo>, now: i64, max_age: u64)
    ensures
        drawn_from(kept_discovered(s, now, max_age), s),
        unique_ids(s) ==> unique_ids(kept_discovered(s, now, max_age)),
    decreases s.len(),
{
    if s.len() > 0 {
        lemma_kept_discovered(s.drop_last(), now, max_age);
        let prev = kept_discovered(s.drop_last(), now, max_age);
        if unique_ids(s) {
            assert(unique_ids(s.drop_last()));
        }
        if fresh_for_discovery(s.last().last_seen, now, max_age) {
            lemma_keep_last(prev, s);
        } else {
            lemma_skip_last(prev, s);
        }
    }
}

/// A record whose id no other has keeps the ids unique.
pub proof fn lemma_push_fresh(s: Seq<DeviceInfo>, d: DeviceInfo)
    requires
        unique_ids(s),
        forall|i: int| 0 <= i < s.len() ==> (#[trigger] s[i]).id@ != d.id@,
    ensures
        unique_ids(s.push(d)),
{
    let t = s.push(d);
    assert forall|i: int, j: int| 0 <= i < j < t.len() implies (#[trigger] t[i]).id@ != (#[trigger] t[j]).id@ by {
        assert(t[i] == s[i]);
        if j < s.len() {
            assert(t[j] == s[j]);
        }
    }
}

/// The device record made from a peer record's attributes.
pub open spec fn record_from(props: Seq<(Seq<char>, Seq<char>)>, r: DeviceInfo) -> bool {
    &&& r.name@ == attribute_or_unknown(props, "device_name"@)
    &&& r.device_type == announced_type(props)
    &&& r.os@ == attribute_or_unknown(props, "os"@)
    &&& r.os_version@ == attribute_or_unknown(props, "os_version"@)
    &&& r.app_version@ == attribute_or_unknown(props, "app_version"@)
    &&& crate::device_info::opt_text(r.ip_address) == Some("127.0.0.1"@)
    &&& r.port == Some(0u16)
    &&& r.id@.len() == UUID_STR_LEN
    &&& r.status@ is Disconnected
    &&& r.last_seen is Some
    &&& !r.is_trusted
    &&& !r.is_owner
}

/// Removes the records with id `id` from a list, keeping the order of the rest.
pub fn remove_by_id(v: &mut Vec<DeviceInfo>, id: &String)
    ensures
        final(v)@ == without_id(old(v)@, id@),
{
    let ghost s0 = v@;
    let n = v.len();
    let mut i: usize = 0;
    let mut j: usize = 0;
    proof {
        assert(s0.take(0) =~= Seq::<DeviceInfo>::empty());
        assert(v@ =~= without_id(s0.take(0), id@) + s0.skip(0));
    }
    while i < v.len()
        invariant
            j <= s0.len(),
            s0.len() == n,
            i == without_id(s0.take(j as int), id@).len(),
            v@ == without_id(s0.take(j as int), id@) + s0.skip(j as int),
        decreases s0.len() - j,
    {
        let ghost kept = without_id(s0.take(j as int), id@);
        proof {
            assert(v@.len() == kept.len() + s0.skip(j as int).len());
            assert(j < s0.len());
            assert(s0.take(j + 1).drop_last() =~= s0.take(j as int));
            assert(s0.take(j + 1).last() == s0[j as int]);
            assert(v@[i as int] == s0[j as int]);
        }
        if v[i].id == *id {
            let _ = v.remove(i);
            proof {
                assert(v@ =~= kept + s0.skip(j + 1));
            }
        } else {
            proof {
                assert(kept.push(s0[j as int]) + s0.skip(j + 1) =~= kept + s0.skip(j as int));
            }
            i = i + 1;
        }
        j = j + 1;
    }
    proof {
        assert(s0.take(j as int) =~= s0);
        assert(s0.skip(j as int) =~= Seq::<DeviceInfo>::empty());
        assert(v@ =~= without_id(s0, id@));
    }
}

/// Device discovery: whether it runs, what it announces, and what it found.
pub struct DeviceDiscovery {
    config: DiscoveryConfig,
    discovered_devices: Vec<DeviceInfo>,
    is_running: bool,
}

impl DeviceDiscovery {
    /// The discovered devices, in order of discovery.
    pub closed spec fn devices(&self) -> Seq<DeviceInfo> {
        self.discovered_devices@
    }

    /// Whether discovery runs.
    pub closed spec fn running(&self) -> bool {
        self.is_running
    }

    /// The announced configuration.
    pub closed spec fn config_view(&self) -> &DiscoveryConfig {
        &self.config
    }

    /// The discovered set is keyed by device id: no id occurs twice.
    pub open spec fn wf(&self) -> bool {
        unique_ids(self.devices())
    }

    /// Stopped, with nothing discovered.
    pub fn new(config: DiscoveryConfig) -> (r: Self)
        ensures
            r.wf(),
            r.devices().len() == 0,
            !r.running(),
            *r.config_view() == config,
    {
        DeviceDiscovery { config, discovered_devices: Vec::new(), is_running: false }
    }

    /// Marks discovery as running. Returns whether it was stopped, that is
    /// whether the announcement and the listener must now be brought up;
    /// starting a running discovery does nothing.
    pub fn start(&mut self) -> (r: bool)
        ensures
            r == !old(self).running(),
            final(self).running(),
            final(self).devices() == old(self).devices(),
            final(self).config_view() == old(self).config_view(),
    {
        if self.is_running {
            return false;
        }
        self.is_running = true;
        true
    }

    /// Marks discovery as stopped. Returns whether it was running, that is
    /// whether the announcement must now be withdrawn and the listener ended.
    pub fn stop(&mut self) -> (r: bool)
        ensures
            r == old(self).running(),
            !final(self).running(),
            final(self).devices() == old(self).devices(),
            final(self).config_view() == old(self).config_view(),
    {
        if !self.is_running {
            return false;
        }
        self.is_running = false;
        true
    }

    /// The announced configuration.
    pub fn config(&self) -> (r: &DiscoveryConfig)
        ensures
            r == self.config_view(),
    {
        &self.config
    }

    /// Whether discovery runs.
    pub fn is_running(&self) -> (r: bool)
        ensures
            r == self.running(),
    {
        self.is_running
    }

    /// The attributes announced for this device, in this order: device type,
    /// OS, OS version, application version, device name.
    pub fn announcement(&self) -> (r: Vec<(String, String)>)
        ensures
            pairs_view(r@) == seq![
                ("device_type"@, crate::device_info::device_type_name(self.config_view().device_type)),
                ("os"@, self.config_view().os@),
                ("os_version"@, self.config_view().os_version@),
                ("app_version"@, self.config_view().app_version@),
                ("device_name"@, self.config_view().device_name@),
            ],
    {
        let mut props: Vec<(String, String)> = Vec::new();
        props.push(("device_type".to_owned(), self.config.device_type.to_string()));
        props.push(("os".to_owned(), self.config.os.clone()));
        props.push(("os_version".to_owned(), self.config.os_version.clone()));
        props.push(("app_version".to_owned(), self.config.app_version.clone()));
        props.push(("device_name".to_owned(), self.config.device_name.clone()));
        assert(pairs_view(props@) =~= seq![
            ("device_type"@, crate::device_info::device_type_name(self.config.device_type)),
            ("os"@, self.config.os@),
            ("os_version"@, self.config.os_version@),
            ("app_version"@, self.config.app_version@),
            ("device_name"@, self.config.device_name@),
        ]);
        props
    }

    /// Stores `device` in the discovered set: it replaces any record with the
    /// same id, and comes last.
    pub fn upsert_device(&mut self, device: DeviceInfo)
        requires
            old(self).wf(),
        ensures
            final(self).wf(),
            final(self).devices() == without_id(old(self).devices(), device.id@).push(device),
            final(self).running() == old(self).running(),
            final(self).config_view() == old(self).config_view(),
    {
        remove_by_id(&mut self.discovered_devices, &device.id);
        proof {
            lemma_without_id(old(self).devices(), device.id@);
            lemma_push_fresh(self.discovered_devices@, device);
        }
        self.discovered_devices.push(device);
    }
    /// Takes in a resolved peer record: its attributes become a device record
    /// (a missing attribute reads "Unknown", a missing or unreadable device
    /// type `Unknown`), found on the network at 127.0.0.1 port 0 until a
    /// connection says more. The record is stored in the discovered set and a
    /// copy returned, for the `DeviceDiscovered` event.
    pub fn handle_service_resolved(&mut self, properties: &Vec<(String, String)>) -> (r: DeviceInfo)
        requires
            old(self).wf(),
        ensures
            final(self).wf(),
            record_from(pairs_view(properties@), r),
            exists|d: DeviceInfo| d.same_as(&r) && final(self).devices() == without_id(old(self).devices(), d.id@).push(d),
            final(self).running() == old(self).running(),
            final(self).config_view() == old(self).config_view(),
    {
        let device_type = match crate::device_info::find_pair(properties, "device_type") {
            Some(v) => match DeviceType::parse(v.as_str()) {
                Some(t) => t,
                None => DeviceType::Unknown,
            },
            None => DeviceType::Unknown,
        };
        let name = attribute(properties, "device_name");
        let device = DeviceInfo::from_network(
            name,
            device_type,
            attribute(properties, "os"),
            attribute(properties, "os_version"),
            attribute(properties, "app_version"),
            "127.0.0.1".to_owned(),
            0,
        );
        let copy = device.clone();
        let ghost stored = device;
        self.upsert_device(device);
        assert(stored.same_as(&copy));
        copy
    }

    /// Copies of the discovered device records, in order.
    pub fn get_discovered_devices(&self) -> (r: Vec<DeviceInfo>)
        ensures
            r@.len() == self.devices().len(),
            forall|i: int| 0 <= i < r@.len() ==> (#[trigger] r@[i]).same_as(&self.devices()[i]),
    {
        clone_devices(&self.discovered_devices)
    }

    /// Drops the devices last seen `max_age` seconds or more before `now`;
    /// a device that has no last-seen time is kept.
    pub fn cleanup_devices_before(&mut self, now: i64, max_age: u64)
        requires
            old(self).wf(),
        ensures
            final(self).wf(),
            final(self).devices() == kept_discovered(old(self).devices(), now, max_age),
            final(self).running() == old(self).running(),
            final(self).config_view() == old(self).config_view(),
    {
        let ghost s0 = self.discovered_devices@;
        let n = self.discovered_devices.len();
        let mut i: usize = 0;
        let mut j: usize = 0;
        proof {
            assert(s0.take(0) =~= Seq::<DeviceInfo>::empty());
            assert(self.discovered_devices@ =~= kept_discovered(s0.take(0), now, max_age) + s0.skip(0));
        }
        while i < self.discovered_devices.len()
            invariant
                j <= s0.len(),
                s0.len() == n,
                s0 == old(self).discovered_devices@,
                self.is_running == old(self).is_running,
                self.config == old(self).config,
                i == kept_discovered(s0.take(j as int), now, max_age).len(),
                self.discovered_devices@ == kept_discovered(s0.take(j as int), now, max_age) + s0.skip(j as int),
            decreases s0.len() - j,
        {
            let ghost kept = kept_discovered(s0.take(j as int), now, max_age);
            proof {
                assert(self.discovered_devices@.len() == kept.len() + s0.skip(j as int).len());
                assert(j < s0.len());
                assert(s0.take(j + 1).drop_last() =~= s0.take(j as int));
                assert(s0.take(j + 1).last() == s0[j as int]);
                assert(self.discovered_devices@[i as int] == s0[j as int]);
            }
            let fresh = match self.discovered_devices[i].last_seen {
                Some(t) => crate::smart_sync::recent(t, now, max_age),
                None => true,
            };
            if fresh {
                proof {
                    assert(kept.push(s0[j as int]) + s0.skip(j + 1) =~= kept + s0.skip(j as int));
                }
                i = i + 1;
            } else {
                let _ = self.discovered_devices.remove(i);
                proof {
                    assert(self.discovered_devices@ =~= kept + s0.skip(j + 1));
                }
            }
            j = j + 1;
        }
        proof {
            assert(s0.take(j as int) =~= s0);
            assert(s0.skip(j as int) =~= Seq::<DeviceInfo>::empty());
            assert(self.discovered_devices@ =~= kept_discovered(s0, now, max_age));
            lemma_kept_discovered(s0, now, max_age);
        }
    }

    /// The same cleanup at the current time.
    pub fn cleanup_old_devices(&mut self, max_age: u64)
        requires
            old(self).wf(),
        ensures
            final(self).wf(),
            exists|now: i64| final(self).devices() == kept_discovered(old(self).devices(), now, max_age),
            final(self).running() == old(self).running(),
            final(self).config_view() == old(self).config_view(),
    {
        let now = now_unix_seconds();
        self.cleanup_devices_before(now, max_age);
    }
}

} // verus!
