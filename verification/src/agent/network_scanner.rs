//! The table of devices on the LAN.
//!
//! Every scan round brings the hosts that answered the ARP sweep. The
//! scanner enters them, decides which of them are due for a probe, drops
//! the devices that have not been seen for a while, and gives the snapshot
//! to report.

use crate::agent::hyperdeck::HyperDeckResponse;
use crate::agent::net::{
    dotted_decimal, ipv4_octets, is_mac_number, lemma_mac_number_text_injective, mac_octets,
    mac_text, Ipv4Address, MacAddress,
};
use crate::agent::parameters::{parameters_of, value_or_empty};
use crate::agent::sweep::SweepResult;
use crate::common::{
    HyperDeckDetails, HyperDeckDetailsModel, NetworkDevice, NetworkDeviceDetails,
    NetworkDeviceDetailsModel, NetworkDeviceModel,
};
use std::collections::HashMap;
use vstd::prelude::*;
use vstd::std_specs::hash::*;
use vstd::std_specs::iter::IteratorSpec;

verus! {

broadcast use vstd::std_specs::hash::group_hash_axioms;

/// Time between two scan rounds, in milliseconds.
pub const SCAN_INTERVAL_MS: u64 = 15_000;

/// How long the sweep of a round waits for answers, in milliseconds.
pub const SCAN_TIMEOUT_MS: u64 = 8_000;

/// A device that has not been seen for this long leaves the table, in
/// milliseconds.
pub const DEVICE_TIMEOUT_MS: u64 = 60_000;

/// A device is probed again when its last probe is this long ago, in
/// milliseconds.
pub const PROBE_INTERVAL_MS: u64 = 60_000;

/// The command that a probe of a HyperDeck sends.
pub const PROBE_COMMAND: &'static str = "device info";

/// What the scanner knows of one device. Times are readings of a monotonic
/// clock in milliseconds.
#[derive(Debug, PartialEq, Eq)]
pub struct Device {
    pub ip_address: Ipv4Address,
    pub last_seen_time: u64,
    /// When the last probe was launched; `None` before the first.
    pub last_probe_time: Option<u64>,
    pub details: Option<NetworkDeviceDetails>,
}

/// Mathematical model of [`Device`], the address as a number.
pub struct DeviceModel {
    pub ip_address: u32,
    pub last_seen_time: u64,
    pub last_probe_time: Option<u64>,
    pub details: Option<NetworkDeviceDetailsModel>,
}

impl View for Device {
    type V = DeviceModel;

    open spec fn view(&self) -> DeviceModel {
        DeviceModel {
            ip_address: self.ip_address.spec_to_u32(),
            last_seen_time: self.last_seen_time,
            last_probe_time: self.last_probe_time,
            details: self.details.deep_view(),
        }
    }
}

impl DeepView for Device {
    type V = DeviceModel;

    open spec fn deep_view(&self) -> DeviceModel {
        self@
    }
}

/// Snapshot of the devices on the LAN, as delivered to the agent
/// connection.
#[derive(Debug, PartialEq, Eq)]
pub struct NetworkState {
    pub devices: Vec<NetworkDevice>,
}

/// A probe to launch.
#[derive(Clone, Copy, Debug, PartialEq, Eq)]
pub struct ProbeTarget {
    pub mac: MacAddress,
    pub ip: Ipv4Address,
}

/// What a scan round results in.
#[derive(Debug, PartialEq, Eq)]
pub struct ScanRound {
    /// The devices to probe now.
    pub probes: Vec<ProbeTarget>,
    /// The snapshot to report.
    pub state: NetworkState,
}

/// What kind of device a MAC address belongs to, as far as it is known how
/// to probe it.
#[derive(Clone, Copy, Debug, PartialEq, Eq)]
pub enum Vendor {
    HyperDeck,
}

/// Why a probe gave no details.
#[derive(Clone, Copy, Debug, PartialEq, Eq)]
pub enum ProbeError {
    /// The MAC address belongs to no vendor that can be probed.
    UnrecognizedVendor,
    /// The device answered with a code outside 200 to 299.
    UnexpectedResponseCode(i32),
    /// The payload of the answer is no list of parameters.
    MalformedParameters,
    /// The exchange with the device failed.
    ExchangeFailed,
}

/// Time from `then` to `now`; nothing where the clock reads earlier than
/// it did.
pub open spec fn elapsed(now: u64, then: u64) -> int {
    if now >= then {
        now - then
    } else {
        0
    }
}

/// Whether a device whose last probe was launched at `last_probe` is to be
/// probed at `now`.
pub open spec fn probe_due(now: u64, last_probe: Option<u64>) -> bool {
    match last_probe {
        None => true,
        Some(then) => elapsed(now, then) >= PROBE_INTERVAL_MS,
    }
}

/// Whether a device last seen at `last_seen` has timed out at `now`.
pub open spec fn is_stale(now: u64, last_seen: u64) -> bool {
    elapsed(now, last_seen) >= DEVICE_TIMEOUT_MS
}

/// When the device `mac` of `table` was last probed; `None` for a device
/// that is not in the table.
pub open spec fn last_probe_of(table: Map<u64, DeviceModel>, mac: u64) -> Option<u64> {
    if table.contains_key(mac) {
        table[mac].last_probe_time
    } else {
        None
    }
}

/// The entry of a device that answered the sweep at `now` from `ip`. What
/// was known of it is kept, but for the address and the times: it has
/// been seen now, and where a probe is due, the probe counts as launched
/// now.
pub open spec fn sighted(table: Map<u64, DeviceModel>, mac: u64, now: u64, ip: u32) -> DeviceModel {
    DeviceModel {
        ip_address: ip,
        last_seen_time: now,
        last_probe_time: if probe_due(now, last_probe_of(table, mac)) {
            Some(now)
        } else {
            last_probe_of(table, mac)
        },
        details: if table.contains_key(mac) {
            table[mac].details
        } else {
            None
        },
    }
}

/// The table after the scan round at `now` in which the hosts `seen`
/// answered: each of them is entered or refreshed, and of the others those
/// stay that have not timed out.
pub open spec fn after_round(table: Map<u64, DeviceModel>, now: u64, seen: Map<u64, u32>) -> Map<
    u64,
    DeviceModel,
> {
    Map::new(
        |mac: u64|
            seen.contains_key(mac) || (table.contains_key(mac) && !is_stale(
                now,
                table[mac].last_seen_time,
            )),
        |mac: u64|
            if seen.contains_key(mac) {
                sighted(table, mac, now, seen[mac])
            } else {
                table[mac]
            },
    )
}

/// The table after a probe of `mac` has come back with `details`: they are
/// entered if the device is still there.
pub open spec fn after_probe(
    table: Map<u64, DeviceModel>,
    mac: u64,
    details: NetworkDeviceDetailsModel,
) -> Map<u64, DeviceModel> {
    if table.contains_key(mac) {
        table.insert(mac, DeviceModel { details: Some(details), ..table[mac] })
    } else {
        table
    }
}

/// Whether the scan round at `now` launches a probe of `mac`.
pub open spec fn launches_probe(
    table: Map<u64, DeviceModel>,
    now: u64,
    seen: Map<u64, u32>,
    mac: u64,
) -> bool {
    seen.contains_key(mac) && probe_due(now, last_probe_of(table, mac))
}

/// Whether `probes` are the probes of the scan round at `now`: one for each
/// device that answered and is due, aimed at the address it answered from.
pub open spec fn are_probes_of(
    probes: Seq<ProbeTarget>,
    table: Map<u64, DeviceModel>,
    now: u64,
    seen: Map<u64, u32>,
) -> bool {
    &&& forall|i: int|
        0 <= i < probes.len() ==> launches_probe(
            table,
            now,
            seen,
            (#[trigger] probes[i]).mac.spec_to_u64(),
        ) && probes[i].ip.spec_to_u32() == seen[probes[i].mac.spec_to_u64()]
    &&& forall|i: int, j: int|
        0 <= i < j < probes.len() ==> (#[trigger] probes[i]).mac.spec_to_u64() != (
        #[trigger] probes[j]).mac.spec_to_u64()
    &&& forall|mac: u64| #[trigger]
        launches_probe(table, now, seen, mac) ==> exists|i: int|
            0 <= i < probes.len() && (#[trigger] probes[i]).mac.spec_to_u64() == mac
}

/// The record under which a device is reported.
pub open spec fn record_of(mac: u64, device: DeviceModel) -> NetworkDeviceModel {
    NetworkDeviceModel {
        ip_address: dotted_decimal(ipv4_octets(device.ip_address)),
        mac_address: mac_text(mac_octets(mac)),
        details: device.details,
    }
}

/// Whether `devices` lists the devices with the MAC addresses `macs` as
/// `table` knows them, and those are all of them, each once. The keys are
/// numbers of MAC addresses.
pub open spec fn lists(
    macs: Seq<u64>,
    devices: Seq<NetworkDeviceModel>,
    table: Map<u64, DeviceModel>,
) -> bool {
    &&& macs.no_duplicates()
    &&& forall|i: int| 0 <= i < macs.len() ==> is_mac_number(#[trigger] macs[i])
    &&& macs.to_set() == table.dom()
    &&& macs.len() == devices.len()
    &&& forall|i: int|
        0 <= i < devices.len() ==> #[trigger] devices[i] == record_of(macs[i], table[macs[i]])
}

/// Whether `devices` is a snapshot of `table`: the record of every device
/// of the table, each once, in some order.
pub open spec fn is_snapshot_of(
    devices: Seq<NetworkDeviceModel>,
    table: Map<u64, DeviceModel>,
) -> bool {
    exists|macs: Seq<u64>| lists(macs, devices, table)
}

/// Whether no two devices of a list have the same MAC address.
pub open spec fn macs_differ(devices: Seq<NetworkDeviceModel>) -> bool {
    forall|i: int, j: int|
        0 <= i < j < devices.len() ==> (#[trigger] devices[i]).mac_address != (
        #[trigger] devices[j]).mac_address
}

/// Whether a MAC address starts with the prefix of the HyperDeck vendor,
/// `7c:2e:0d`.
pub open spec fn is_hyperdeck(octets: Seq<u8>) -> bool {
    octets[0] == 0x7c && octets[1] == 0x2e && octets[2] == 0x0d
}

/// What the reply to the probe command says of the device.
pub open spec fn probe_result(response: crate::agent::hyperdeck::HyperDeckResponseModel) -> Result<
    NetworkDeviceDetailsModel,
    ProbeError,
> {
    if response.code < 200 || response.code >= 300 {
        Err(ProbeError::UnexpectedResponseCode(response.code))
    } else {
        let parameters = match response.payload {
            None => Some(Map::<Seq<char>, Seq<char>>::empty()),
            Some(payload) => parameters_of(payload),
        };
        match parameters {
            None => Err(ProbeError::MalformedParameters),
            Some(stated) => Ok(
                NetworkDeviceDetailsModel::HyperDeckDetails(
                    HyperDeckDetailsModel {
                        model_name: value_or_empty(stated.get("model"@)),
                        protocol_version: value_or_empty(stated.get("protocol version"@)),
                        unique_id: value_or_empty(stated.get("unique id"@)),
                    },
                ),
            ),
        }
    }
}

/// Time from `then` to `now`.
pub fn time_since(now: u64, then: u64) -> (time: u64)
    ensures
        time == elapsed(now, then),
{
    if now >= then {
        now - then
    } else {
        0
    }
}

/// Tells by its MAC address how a device can be probed: the vendor whose
/// protocol it speaks, or that no such vendor is known.
pub fn probe_device(mac: &MacAddress) -> (vendor: Result<Vendor, ProbeError>)
    ensures
        vendor == if is_hyperdeck(mac.octets@) {
            Ok::<Vendor, ProbeError>(Vendor::HyperDeck)
        } else {
            Err::<Vendor, ProbeError>(ProbeError::UnrecognizedVendor)
        },
{
    if mac.octets[0] == 0x7c && mac.octets[1] == 0x2e && mac.octets[2] == 0x0d {
        Ok(Vendor::HyperDeck)
    } else {
        Err(ProbeError::UnrecognizedVendor)
    }
}

/// Reads the reply of a HyperDeck to the probe command. A code outside 200
/// to 299 is a failure, as is a payload that is no list of parameters. The
/// details are the parameters `model`, `protocol version` and `unique id`,
/// each empty where the device did not state it.
pub fn probe_response(response: &HyperDeckResponse) -> (details: Result<
    NetworkDeviceDetails,
    ProbeError,
>)
    ensures
        match probe_result(response@) {
            Ok(expected) => details matches Ok(found) && found@ == expected,
            Err(error) => details matches Err(found) && found == error,
        },
{
    if response.code < 200 || response.code >= 300 {
        return Err(ProbeError::UnexpectedResponseCode(response.code));
    }
    match response.parse_payload_parameters() {
        Err(_) => Err(ProbeError::MalformedParameters),
        Ok(parameters) => Ok(
            NetworkDeviceDetails::HyperDeckDetails(
                HyperDeckDetails {
                    model_name: parameters.get_or_empty("model"),
                    protocol_version: parameters.get_or_empty("protocol version"),
                    unique_id: parameters.get_or_empty("unique id"),
                },
            ),
        ),
    }
}

/// The LAN scanner: the table of the devices seen, by the number of their
/// MAC address.
#[derive(Debug)]
pub struct NetworkScanner {
    devices: HashMap<u64, Device>,
}

impl View for NetworkScanner {
    type V = Map<u64, DeviceModel>;

    closed spec fn view(&self) -> Map<u64, DeviceModel> {
        Map::new(|mac: u64| self.devices@.contains_key(mac), |mac: u64| self.devices@[mac]@)
    }
}

fn keys_of(devices: &HashMap<u64, Device>) -> (keys: Vec<u64>)
    ensures
        keys@.no_duplicates(),
        keys@.to_set() == devices@.dom(),
{
    let mut keys: Vec<u64> = Vec::new();
    for key in it: devices.keys()
        invariant
            it.seq() == spec_keys_iter(devices).remaining(),
            keys@ == it.seq().unref().take(it.index() as int),
    {
        keys.push(*key);
    }
    assert(keys@ == spec_keys_iter(devices).remaining().unref());
    assert forall|i: int, j: int| 0 <= i < keys@.len() && 0 <= j < keys@.len() && i != j implies keys@[i]
        != keys@[j] by {
        let refs = spec_keys_iter(devices).remaining();
        assert(refs[i] != refs[j]);
    }
    keys
}

impl NetworkScanner {
    /// Every key is the number of a MAC address.
    #[verifier::type_invariant]
    spec fn keys_are_mac_numbers(self) -> bool {
        forall|mac: u64| #[trigger] self.devices@.contains_key(mac) ==> is_mac_number(mac)
    }

    /// A scanner that knows no device yet.
    pub fn new() -> (scanner: Self)
        ensures
            scanner@ == Map::<u64, DeviceModel>::empty(),
    {
        let scanner = NetworkScanner { devices: HashMap::new() };
        assert(scanner@ =~= Map::<u64, DeviceModel>::empty());
        scanner
    }

    /// Number of devices in the table.
    pub fn len(&self) -> (n: usize)
        ensures
            n == self@.dom().len(),
    {
        assert(self@.dom() =~= self.devices@.dom());
        self.devices.len()
    }

    /// Whether a device is in the table.
    pub fn contains(&self, mac: &MacAddress) -> (known: bool)
        ensures
            known == self@.contains_key(mac.spec_to_u64()),
    {
        let key = mac.to_u64();
        self.devices.contains_key(&key)
    }

    /// What the scanner knows of a device, if the device is in the table.
    pub fn get(&self, mac: &MacAddress) -> (device: Option<&Device>)
        ensures
            match device {
                Some(device) => self@.contains_key(mac.spec_to_u64()) && device@
                    == self@[mac.spec_to_u64()],
                None => !self@.contains_key(mac.spec_to_u64()),
            },
    {
        let key = mac.to_u64();
        self.devices.get(&key)
    }

    fn take(&mut self, mac: u64) -> (device: Option<Device>)
        ensures
            final(self)@ == old(self)@.remove(mac),
            device.deep_view() == old(self)@.get(mac),
    {
        proof {
            use_type_invariant(&*self);
        }
        let mut devices = HashMap::new();
        std::mem::swap(&mut self.devices, &mut devices);
        let device = devices.remove(&mac);
        self.devices = devices;
        assert(self@ =~= old(self)@.remove(mac));
        device
    }

    fn put(&mut self, mac: u64, device: Device)
        requires
            is_mac_number(mac),
        ensures
            final(self)@ == old(self)@.insert(mac, device@),
    {
        proof {
            use_type_invariant(&*self);
        }
        let mut devices = HashMap::new();
        std::mem::swap(&mut self.devices, &mut devices);
        devices.insert(mac, device);
        self.devices = devices;
        assert(self@ =~= old(self)@.insert(mac, device@));
    }

    fn last_seen(&self, mac: u64) -> (time: Option<u64>)
        ensures
            time == if self@.contains_key(mac) {
                Some(self@[mac].last_seen_time)
            } else {
                None
            },
    {
        match self.devices.get(&mac) {
            Some(device) => Some(device.last_seen_time),
            None => None,
        }
    }

    fn macs(&self) -> (macs: Vec<u64>)
        ensures
            macs@.no_duplicates(),
            macs@.to_set() == self@.dom(),
            forall|i: int| 0 <= i < macs.len() ==> is_mac_number(#[trigger] macs[i]),
    {
        proof {
            use_type_invariant(self);
            assert(self@.dom() =~= self.devices@.dom());
        }
        let macs = keys_of(&self.devices);
        assert forall|i: int| 0 <= i < macs.len() implies is_mac_number(#[trigger] macs[i]) by {
            assert(macs@.to_set().contains(macs@[i]));
        }
        macs
    }

    fn record(&self, mac: u64) -> (record: NetworkDevice)
        requires
            self@.contains_key(mac),
        ensures
            record@ == record_of(mac, self@[mac]),
    {
        let device = self.devices.get(&mac).unwrap();
        proof {
            crate::agent::net::lemma_ipv4_octets_of_number(device.ip_address);
        }
        NetworkDevice {
            ip_address: device.ip_address.to_string(),
            mac_address: MacAddress::from_u64(mac).to_string(),
            details: device.details.clone(),
        }
    }

    /// Enters what a probe found out. The details replace earlier ones; a
    /// device that has left the table in the meantime is not entered again.
    pub fn probe_succeeded(&mut self, mac: &MacAddress, details: NetworkDeviceDetails)
        ensures
            final(self)@ == after_probe(old(self)@, mac.spec_to_u64(), details@),
    {
        let key = mac.to_u64();
        match self.take(key) {
            Some(device) => {
                let updated = Device {
                    ip_address: device.ip_address,
                    last_seen_time: device.last_seen_time,
                    last_probe_time: device.last_probe_time,
                    details: Some(details),
                };
                self.put(key, updated);
                assert(self@ =~= after_probe(old(self)@, key, details@));
            },
            None => {
                assert(self@ =~= old(self)@);
            },
        }
    }

    /// Takes in the outcome of a probe. A failed probe changes nothing:
    /// what earlier probes found out stays.
    pub fn probe_finished(
        &mut self,
        mac: &MacAddress,
        outcome: Result<NetworkDeviceDetails, ProbeError>,
    )
        ensures
            final(self)@ == match outcome {
                Ok(details) => after_probe(old(self)@, mac.spec_to_u64(), details@),
                Err(_) => old(self)@,
            },
    {
        match outcome {
            Ok(details) => self.probe_succeeded(mac, details),
            Err(_) => {},
        }
    }

    /// The snapshot of the table: the record of every device, each once.
    /// No two records have the same MAC address.
    pub fn snapshot(&self) -> (state: NetworkState)
        ensures
            is_snapshot_of(state.devices.deep_view(), self@),
            macs_differ(state.devices.deep_view()),
    {
        let macs = self.macs();
        let mut devices: Vec<NetworkDevice> = Vec::new();
        let mut i: usize = 0;
        while i < macs.len()
            invariant
                i <= macs.len(),
                macs@.to_set() == self@.dom(),
                forall|k: int| 0 <= k < macs.len() ==> is_mac_number(#[trigger] macs[k]),
                devices.len() == i,
                forall|k: int|
                    0 <= k < i ==> (#[trigger] devices[k])@ == record_of(macs[k], self@[macs[k]]),
            decreases macs.len() - i,
        {
            assert(macs@.to_set().contains(macs@[i as int]));
            devices.push(self.record(macs[i]));
            i += 1;
        }
        proof {
            assert(lists(macs@, devices.deep_view(), self@));
            lemma_snapshot_macs_differ(devices.deep_view(), self@);
        }
        NetworkState { devices }
    }

    /// Runs the table's part of a scan round: `seen` are the hosts that
    /// answered the sweep, `now` is the time. Every host that answered is
    /// entered or refreshed, and probed if its last probe is at least
    /// [`PROBE_INTERVAL_MS`] ago or it was never probed. Then every device
    /// that was last seen [`DEVICE_TIMEOUT_MS`] ago or longer is dropped.
    /// The round gives the probes to launch and the snapshot to report.
    pub fn scan(&mut self, now: u64, seen: &SweepResult) -> (round: ScanRound)
        ensures
            final(self)@ == after_round(old(self)@, now, seen@),
            are_probes_of(round.probes@, old(self)@, now, seen@),
            is_snapshot_of(round.state.devices.deep_view(), final(self)@),
            macs_differ(round.state.devices.deep_view()),
            forall|mac: u64| #[trigger]
                final(self)@.contains_key(mac) ==> !is_stale(now, final(self)@[mac].last_seen_time),
            forall|mac: u64|
                old(self)@.contains_key(mac) && !seen@.contains_key(mac) && !is_stale(
                    now,
                    old(self)@[mac].last_seen_time,
                ) ==> #[trigger] final(self)@.contains_key(mac) && final(self)@[mac] == old(self)@[mac],
    {
        let probes = self.enter(now, seen);
        self.evict(now);
        let state = self.snapshot();
        assert(self@ =~= after_round(old(self)@, now, seen@));
        ScanRound { probes, state }
    }

    /// The table with the hosts `seen` entered, before anything is dropped.
    pub open spec fn entered(table: Map<u64, DeviceModel>, now: u64, seen: Map<u64, u32>) -> Map<
        u64,
        DeviceModel,
    > {
        Map::new(
            |mac: u64| seen.contains_key(mac) || table.contains_key(mac),
            |mac: u64|
                if seen.contains_key(mac) {
                    sighted(table, mac, now, seen[mac])
                } else {
                    table[mac]
                },
        )
    }

    fn enter(&mut self, now: u64, seen: &SweepResult) -> (probes: Vec<ProbeTarget>)
        ensures
            final(self)@ == Self::entered(old(self)@, now, seen@),
            are_probes_of(probes@, old(self)@, now, seen@),
    {
        let entries = seen.entries();
        let mut probes: Vec<ProbeTarget> = Vec::new();
        let ghost mut done: Map<u64, u32> = Map::empty();
        let mut i: usize = 0;
        proof {
            assert(self@ =~= Self::entered(old(self)@, now, done));
        }
        while i < entries.len()
            invariant
                i <= entries.len(),
                entries@.no_duplicates(),
                entries@.to_set() == seen@.kv_pairs(),
                forall|k: int|
                    0 <= k < entries.len() ==> (#[trigger] entries[k]).0 < 0x1_0000_0000_0000,
                self@ == Self::entered(old(self)@, now, done),
                forall|key: u64| #[trigger]
                    done.contains_key(key) ==> seen@.contains_key(key) && done[key] == seen@[key],
                forall|k: int| 0 <= k < i ==> done.contains_key(#[trigger] entries[k].0),
                forall|key: u64| #[trigger]
                    done.contains_key(key) ==> exists|k: int| 0 <= k < i && entries[k].0 == key,
                are_probes_of(probes@, old(self)@, now, done),
            decreases entries.len() - i,
        {
            let (mac, ip) = entries[i];
            proof {
                assert(entries@.to_set().contains(entries@[i as int]));
                assert(seen@.kv_pairs().contains((mac, ip)));
                if done.contains_key(mac) {
                    let k = choose|k: int| 0 <= k < i && entries[k].0 == mac;
                    assert(seen@.kv_pairs().contains(entries@[k]));
                    assert(entries@[k] == entries@[i as int]);
                }
                assert(!done.contains_key(mac));
            }
            let ghost before = self@;
            let known = self.take(mac);
            let (last_probe, details) = match known {
                Some(device) => (device.last_probe_time, device.details),
                None => (None, None),
            };
            let due = match last_probe {
                None => true,
                Some(then) => time_since(now, then) >= PROBE_INTERVAL_MS,
            };
            let address = Ipv4Address::from_u32(ip);
            let ghost old_probes = probes@;
            if due {
                let target = ProbeTarget { mac: MacAddress::from_u64(mac), ip: address };
                probes.push(target);
            }
            let device = Device {
                ip_address: address,
                last_seen_time: now,
                last_probe_time: if due {
                    Some(now)
                } else {
                    last_probe
                },
                details,
            };
            self.put(mac, device);
            proof {
                let ghost earlier = done;
                done = done.insert(mac, ip);
                assert(before.contains_key(mac) == old(self)@.contains_key(mac));
                assert(self@ =~= Self::entered(old(self)@, now, done));
                assert forall|key: u64| #[trigger] done.contains_key(key) implies exists|k: int|
                    0 <= k < i + 1 && entries[k].0 == key by {
                    if key == mac {
                        assert(entries[i as int].0 == key);
                    } else {
                        let k = choose|k: int| 0 <= k < i && entries[k].0 == key;
                        assert(entries[k].0 == key);
                    }
                }
                assert forall|m: u64| #[trigger]
                    launches_probe(old(self)@, now, done, m) implies exists|k: int|
                    0 <= k < probes@.len() && (#[trigger] probes@[k]).mac.spec_to_u64() == m by {
                    if m == mac {
                        assert(probes@[probes@.len() - 1].mac.spec_to_u64() == m);
                    } else {
                        assert(launches_probe(old(self)@, now, earlier, m));
                        let k = choose|k: int|
                            0 <= k < old_probes.len() && (#[trigger] old_probes[k]).mac.spec_to_u64()
                                == m;
                        assert(probes@[k].mac.spec_to_u64() == m);
                    }
                }
                assert(are_probes_of(probes@, old(self)@, now, done));
            }
            i += 1;
        }
        proof {
            assert forall|key: u64| #[trigger] seen@.contains_key(key) implies done.contains_key(
                key,
            ) by {
                let pair = (key, seen@[key]);
                assert(seen@.kv_pairs().contains(pair));
                assert(entries@.to_set().contains(pair));
                let k = choose|k: int| 0 <= k < entries@.len() && entries@[k] == pair;
                assert(done.contains_key(entries[k].0));
            }
            assert(done =~= seen@);
        }
        probes
    }

    fn evict(&mut self, now: u64)
        ensures
            forall|mac: u64| #[trigger]
                final(self)@.contains_key(mac) <==> old(self)@.contains_key(mac) && !is_stale(
                    now,
                    old(self)@[mac].last_seen_time,
                ),
            forall|mac: u64| #[trigger]
                final(self)@.contains_key(mac) ==> final(self)@[mac] == old(self)@[mac],
    {
        let macs = self.macs();
        let mut i: usize = 0;
        while i < macs.len()
            invariant
                i <= macs.len(),
                macs@.no_duplicates(),
                macs@.to_set() == old(self)@.dom(),
                forall|mac: u64| #[trigger]
                    self@.contains_key(mac) ==> old(self)@.contains_key(mac) && self@[mac] == old(self)@[mac],
                forall|mac: u64|
                    old(self)@.contains_key(mac) && !is_stale(now, old(self)@[mac].last_seen_time)
                        ==> #[trigger] self@.contains_key(mac),
                forall|k: int|
                    0 <= k < i && is_stale(now, old(self)@[macs[k]].last_seen_time)
                        ==> !self@.contains_key(#[trigger] macs[k]),
            decreases macs.len() - i,
        {
            let mac = macs[i];
            match self.last_seen(mac) {
                Some(then) => {
                    if time_since(now, then) >= DEVICE_TIMEOUT_MS {
                        let _ = self.take(mac);
                    }
                },
                None => {},
            }
            i += 1;
        }
        proof {
            assert forall|mac: u64| #[trigger] self@.contains_key(mac) implies !is_stale(
                now,
                old(self)@[mac].last_seen_time,
            ) by {
                assert(macs@.to_set().contains(mac));
                let k = choose|k: int| 0 <= k < macs@.len() && macs@[k] == mac;
                assert(macs[k] == mac);
            }
        }
    }
}

/// No two records of a snapshot have the same MAC address: the keys of
/// the table are numbers of MAC addresses, and two such numbers that are
/// written alike are the same.
pub proof fn lemma_snapshot_macs_differ(
    devices: Seq<NetworkDeviceModel>,
    table: Map<u64, DeviceModel>,
)
    requires
        is_snapshot_of(devices, table),
    ensures
        macs_differ(devices),
{
    let macs = choose|macs: Seq<u64>| lists(macs, devices, table);
    assert forall|i: int, j: int| 0 <= i < j < devices.len() implies (#[trigger] devices[i]).mac_address
        != (#[trigger] devices[j]).mac_address by {
        assert(is_mac_number(macs[i]) && is_mac_number(macs[j]));
        assert(macs[i] != macs[j]);
        if devices[i].mac_address == devices[j].mac_address {
            lemma_mac_number_text_injective(macs[i], macs[j]);
        }
    }
}

/// After a scan round the table holds no device that has timed out.
pub proof fn lemma_round_leaves_no_stale_device(
    table: Map<u64, DeviceModel>,
    now: u64,
    seen: Map<u64, u32>,
    mac: u64,
)
    requires
        after_round(table, now, seen).contains_key(mac),
    ensures
        !is_stale(now, after_round(table, now, seen)[mac].last_seen_time),
{
}

/// A device that the sweep missed stays in the table, as it is, for as
/// long as it has not timed out.
pub proof fn lemma_missed_device_stays(
    table: Map<u64, DeviceModel>,
    now: u64,
    seen: Map<u64, u32>,
    mac: u64,
)
    requires
        table.contains_key(mac),
        !seen.contains_key(mac),
        !is_stale(now, table[mac].last_seen_time),
    ensures
        after_round(table, now, seen).contains_key(mac),
        after_round(table, now, seen)[mac] == table[mac],
{
}

/// What a scan round may do to a device that stays in the table: its time
/// of last sight does not go back while the clock does not, its time of
/// last probe changes only where the round launches a probe of it, and
/// details that are known stay known.
pub proof fn lemma_round_respects_device(
    table: Map<u64, DeviceModel>,
    now: u64,
    seen: Map<u64, u32>,
    mac: u64,
)
    requires
        table.contains_key(mac),
        after_round(table, now, seen).contains_key(mac),
    ensures
        ({
            let before = table[mac];
            let after = after_round(table, now, seen)[mac];
            &&& now >= before.last_seen_time ==> after.last_seen_time >= before.last_seen_time
            &&& after.last_probe_time != before.last_probe_time ==> launches_probe(
                table,
                now,
                seen,
                mac,
            ) && after.last_probe_time == Some(now)
            &&& after.details == before.details
        }),
{
}

/// A device that three sweeps in a row miss is still in the table after
/// the third, as it was, if it has not timed out by then.
pub proof fn lemma_three_missed_sweeps(
    table: Map<u64, DeviceModel>,
    mac: u64,
    first: (u64, Map<u64, u32>),
    second: (u64, Map<u64, u32>),
    third: (u64, Map<u64, u32>),
)
    requires
        table.contains_key(mac),
        !first.1.contains_key(mac),
        !second.1.contains_key(mac),
        !third.1.contains_key(mac),
        first.0 <= second.0 <= third.0,
        !is_stale(third.0, table[mac].last_seen_time),
    ensures
        ({
            let after = after_round(
                after_round(after_round(table, first.0, first.1), second.0, second.1),
                third.0,
                third.1,
            );
            after.contains_key(mac) && after[mac] == table[mac]
        }),
{
    let one = after_round(table, first.0, first.1);
    lemma_missed_device_stays(table, first.0, first.1, mac);
    let two = after_round(one, second.0, second.1);
    lemma_missed_device_stays(one, second.0, second.1, mac);
    lemma_missed_device_stays(two, third.0, third.1, mac);
}

} // verus!
