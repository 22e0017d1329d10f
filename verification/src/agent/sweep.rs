//! One round of ARP discovery on the directly attached networks.
//!
//! The runtime owns the raw datalink channel. This module says which
//! interfaces and addresses to sweep, and keeps the book of who answered.

use crate::agent::arp::{is_arp_reply, parse_arp_reply};
use crate::agent::net::{ipv4_number, mac_number, Ipv4Address, MacAddress};
use std::collections::HashMap;
use vstd::arithmetic::power2::pow2;
use vstd::prelude::*;
use vstd::std_specs::hash::*;
use vstd::std_specs::iter::IteratorSpec;

verus! {

broadcast use vstd::std_specs::hash::group_hash_axioms;

/// How long the receiver waits for a frame before it looks at the stop
/// flag again, in milliseconds.
pub const RECEIVE_TIMEOUT_MS: u64 = 200;

/// Networks with a shorter prefix are too large to sweep.
pub const MIN_PREFIX: u8 = 16;

/// Number of bits in an IPv4 address.
pub const IPV4_BITS: u8 = 32;

/// An address of an interface together with the length of its network
/// prefix.
#[derive(Clone, Copy, Debug, PartialEq, Eq)]
pub enum IpNetwork {
    V4 { address: Ipv4Address, prefix: u8 },
    /// An IPv6 network; never swept, so only its prefix length is kept.
    V6 { prefix: u8 },
}

/// What the sweep needs to know of a network interface.
#[derive(Debug, PartialEq, Eq)]
pub struct Interface {
    pub mac: MacAddress,
    pub ips: Vec<IpNetwork>,
    pub loopback: bool,
    /// The interface flags as the operating system reports them.
    pub flags: u32,
}

/// One ARP request to send: who asks, and for whom.
#[derive(Clone, Copy, Debug, PartialEq, Eq)]
pub struct ArpProbe {
    pub sender_ip: Ipv4Address,
    pub target: Ipv4Address,
}

/// Why the sweep of one interface failed.
#[derive(Clone, Copy, Debug, PartialEq, Eq)]
pub enum SweepError {
    /// The datalink channel is not an Ethernet channel.
    UnknownChannelType,
    /// The datalink channel could not be opened.
    ChannelFailed,
    /// Receiving failed with something other than a timeout.
    ReceiveFailed,
}

/// What the receiver got from one attempt to read a frame.
#[derive(Debug, PartialEq, Eq)]
pub enum ReceiveEvent {
    Frame(Vec<u8>),
    TimedOut,
    Failed,
}

/// The flag of point-to-point links among the interface flags.
pub open spec fn point_to_point_bit() -> u32 {
    0x10
}

/// Whether a network address is one that a sweep covers: IPv4, with a
/// prefix of at least 16 bits.
pub open spec fn is_sweepable(network: IpNetwork) -> bool {
    network matches IpNetwork::V4 { prefix, .. } && MIN_PREFIX <= prefix <= IPV4_BITS
}

/// Whether some address in the list is an IPv4 address.
pub open spec fn has_ipv4(ips: Seq<IpNetwork>) -> bool {
    exists|i: int| 0 <= i < ips.len() && #[trigger] ips[i] is V4
}

/// Number of addresses in an IPv4 network with the given prefix length.
pub open spec fn network_size(prefix: u8) -> nat
    recommends
        prefix <= IPV4_BITS,
{
    pow2((IPV4_BITS - prefix) as nat)
}

/// The lowest address of the network that `address` lies in.
pub open spec fn network_base(address: u32, prefix: u8) -> int
    recommends
        prefix <= IPV4_BITS,
{
    address as int - (address as int) % (network_size(prefix) as int)
}

/// Every address of the network that `address` lies in, from the lowest to
/// the highest.
pub open spec fn network_hosts(address: u32, prefix: u8) -> Seq<u32>
    recommends
        prefix <= IPV4_BITS,
{
    Seq::new(network_size(prefix), |i: int| (network_base(address, prefix) + i) as u32)
}

/// The requests of a sweep of one network, as pairs of numbers: the
/// interface's own address there, and each address of the network in turn.
pub open spec fn network_plan(network: IpNetwork) -> Seq<(u32, u32)> {
    match network {
        IpNetwork::V4 { address, prefix } => {
            if is_sweepable(network) {
                network_hosts(address.spec_to_u32(), prefix).map_values(
                    |host: u32| (address.spec_to_u32(), host),
                )
            } else {
                Seq::empty()
            }
        },
        IpNetwork::V6 { .. } => Seq::empty(),
    }
}

/// The requests of a sweep of all the networks of an interface, one network
/// after the other.
pub open spec fn interface_plan(ips: Seq<IpNetwork>) -> Seq<(u32, u32)>
    decreases ips.len(),
{
    if ips.len() == 0 {
        Seq::empty()
    } else {
        interface_plan(ips.drop_last()) + network_plan(ips.last())
    }
}

/// A list of requests as pairs of numbers.
pub open spec fn plan_numbers(plan: Seq<ArpProbe>) -> Seq<(u32, u32)> {
    plan.map_values(|probe: ArpProbe| (probe.sender_ip.spec_to_u32(), probe.target.spec_to_u32()))
}

/// `libc::IFF_POINTOPOINT`: the bit that marks a point-to-point link in an
/// interface's flags. libc gives it the value 0x10 on every platform that
/// has it.
#[verifier::external_body]
fn point_to_point_flag() -> (flag: u32)
    ensures
        flag == point_to_point_bit(),
{
    libc::IFF_POINTOPOINT as u32
}

/// `ipnetwork::Ipv4Network::iter`: the addresses of the network that
/// `address` with a prefix of `prefix` bits lies in. The iterator starts at
/// the network address (the address with its host bits cleared) and counts
/// up to the broadcast address, so it yields `2^(32 - prefix)` addresses.
/// With a prefix of 0 the crate's size computation overflows, hence the
/// lower bound.
#[verifier::external_body]
fn ipv4_network_hosts(address: u32, prefix: u8) -> (hosts: Vec<u32>)
    requires
        1 <= prefix <= IPV4_BITS,
    ensures
        hosts@ == network_hosts(address, prefix),
{
    match ipnetwork::Ipv4Network::new(address.into(), prefix) {
        Ok(network) => network.iter().map(u32::from).collect(),
        Err(_) => Vec::new(),
    }
}

impl Interface {
    /// Whether the interface takes part in a sweep: it has an IPv4 address
    /// and is neither the loopback nor a point-to-point link.
    pub open spec fn spec_is_eligible(&self) -> bool {
        &&& has_ipv4(self.ips@)
        &&& !self.loopback
        &&& self.flags & point_to_point_bit() == 0
    }

    /// Whether the interface takes part in a sweep.
    pub fn is_eligible(&self) -> (eligible: bool)
        ensures
            eligible == self.spec_is_eligible(),
    {
        if self.loopback {
            return false;
        }
        if self.flags & point_to_point_flag() != 0 {
            return false;
        }
        let mut i: usize = 0;
        while i < self.ips.len()
            invariant
                i <= self.ips.len(),
                !self.loopback,
                self.flags & point_to_point_bit() == 0,
                forall|k: int| 0 <= k < i ==> !(#[trigger] self.ips[k] is V4),
            decreases self.ips.len() - i,
        {
            match self.ips[i] {
                IpNetwork::V4 { .. } => {
                    assert(self.ips@[i as int] is V4);
                    return true;
                },
                IpNetwork::V6 { .. } => {},
            }
            i += 1;
        }
        false
    }
}

/// Plans the sweep of one interface: an ARP request for every address of
/// every IPv4 network of the interface whose prefix has at least 16 bits.
/// An empty plan means that there is nothing to sweep, and the round's
/// result for this interface is empty without a channel being opened.
pub fn scan_network(interface: &Interface) -> (plan: Vec<ArpProbe>)
    ensures
        plan_numbers(plan@) == interface_plan(interface.ips@),
{
    let mut plan: Vec<ArpProbe> = Vec::new();
    let mut i: usize = 0;
    while i < interface.ips.len()
        invariant
            i <= interface.ips.len(),
            plan_numbers(plan@) == interface_plan(interface.ips@.take(i as int)),
        decreases interface.ips.len() - i,
    {
        let network = interface.ips[i];
        proof {
            assert(interface.ips@.take(i + 1).drop_last() =~= interface.ips@.take(i as int));
            assert(interface.ips@.take(i + 1).last() == network);
        }
        let ghost before = plan@;
        match network {
            IpNetwork::V4 { address, prefix } => {
                if MIN_PREFIX <= prefix && prefix <= IPV4_BITS {
                    let sender = address.to_u32();
                    let hosts = ipv4_network_hosts(sender, prefix);
                    let mut k: usize = 0;
                    while k < hosts.len()
                        invariant
                            k <= hosts.len(),
                            sender == address.spec_to_u32(),
                            plan_numbers(plan@) == plan_numbers(before) + hosts@.take(
                                k as int,
                            ).map_values(|host: u32| (sender, host)),
                        decreases hosts.len() - k,
                    {
                        let ghost so_far = plan@;
                        let target = Ipv4Address::from_u32(hosts[k]);
                        plan.push(ArpProbe { sender_ip: address, target });
                        k += 1;
                        proof {
                            let pair = |host: u32| (sender, host);
                            assert(plan_numbers(plan@) =~= plan_numbers(so_far).push(
                                (sender, hosts[k - 1]),
                            ));
                            assert(hosts@.take(k as int).map_values(pair) =~= hosts@.take(
                                k - 1,
                            ).map_values(pair).push((sender, hosts[k - 1])));
                        }
                    }
                    assert(hosts@.take(k as int) =~= hosts@);
                } else {
                    assert(plan_numbers(plan@) =~= plan_numbers(before) + network_plan(network));
                }
            },
            IpNetwork::V6 { .. } => {
                assert(plan_numbers(plan@) =~= plan_numbers(before) + network_plan(network));
            },
        }
        i += 1;
    }
    assert(interface.ips@.take(i as int) =~= interface.ips@);
    plan
}

/// Picks the interfaces to sweep: the positions in `interfaces` of those
/// that are eligible, in ascending order.
pub fn scan_networks(interfaces: &Vec<Interface>) -> (chosen: Vec<usize>)
    ensures
        forall|k: int| 0 <= k < chosen.len() ==> 0 <= #[trigger] chosen[k] < interfaces.len(),
        forall|k: int|
            0 <= k < chosen.len() ==> (#[trigger] interfaces[chosen[k] as int]).spec_is_eligible(),
        forall|i: int|
            0 <= i < interfaces.len() && (#[trigger] interfaces[i]).spec_is_eligible()
                ==> chosen@.contains(i as usize),
        forall|j: int, k: int| 0 <= j < k < chosen.len() ==> chosen[j] < chosen[k],
{
    let mut chosen: Vec<usize> = Vec::new();
    let mut i: usize = 0;
    while i < interfaces.len()
        invariant
            i <= interfaces.len(),
            forall|k: int| 0 <= k < chosen.len() ==> 0 <= #[trigger] chosen[k] < i,
            forall|k: int|
                0 <= k < chosen.len() ==> (#[trigger] interfaces[chosen[k] as int]).spec_is_eligible(),
            forall|n: int|
                0 <= n < i && (#[trigger] interfaces[n]).spec_is_eligible() ==> chosen@.contains(
                    n as usize,
                ),
            forall|j: int, k: int| 0 <= j < k < chosen.len() ==> chosen[j] < chosen[k],
        decreases interfaces.len() - i,
    {
        if interfaces[i].is_eligible() {
            let ghost before = chosen@;
            chosen.push(i);
            assert(chosen@[chosen.len() - 1] == i);
            assert forall|n: int|
                0 <= n < i + 1 && (#[trigger] interfaces[n]).spec_is_eligible() implies chosen@.contains(
                n as usize,
            ) by {
                if n < i {
                    assert(before.contains(n as usize));
                    let at = choose|at: int| 0 <= at < before.len() && before[at] == n as usize;
                    assert(chosen@[at] == n as usize);
                }
            }
        }
        i += 1;
    }
    chosen
}

/// Who answered during a sweep: for each MAC address, by its number, the
/// number of the IPv4 address that its latest reply gave.
#[derive(Debug)]
pub struct SweepResult {
    found: HashMap<u64, u32>,
}

impl View for SweepResult {
    type V = Map<u64, u32>;

    closed spec fn view(&self) -> Map<u64, u32> {
        self.found@
    }
}

/// The later of two books where both have an entry, else whichever has one.
pub open spec fn merged(
    earlier: Map<u64, u32>,
    later: Map<u64, u32>,
) -> Map<u64, u32> {
    earlier.union_prefer_right(later)
}

/// The book after a frame has come in: an ARP reply enters its sender, by
/// the numbers of the sender's two addresses; any other frame changes
/// nothing.
pub open spec fn recorded(book: Map<u64, u32>, frame: Seq<u8>) -> Map<u64, u32> {
    if is_arp_reply(frame) {
        book.insert(
            mac_number(frame.subrange(22, 28)) as u64,
            ipv4_number(frame.subrange(28, 32)) as u32,
        )
    } else {
        book
    }
}

impl SweepResult {
    /// Every key is the number of a MAC address.
    #[verifier::type_invariant]
    spec fn keys_are_mac_numbers(self) -> bool {
        forall|key: u64| #[trigger] self.found@.contains_key(key) ==> key < 0x1_0000_0000_0000
    }

    pub fn new() -> (result: Self)
        ensures
            result@ == Map::<u64, u32>::empty(),
    {
        SweepResult { found: HashMap::new() }
    }

    /// Enters a host, replacing what was known of its MAC address.
    pub fn insert(&mut self, mac: &MacAddress, ip: Ipv4Address)
        ensures
            final(self)@ == old(self)@.insert(mac.spec_to_u64(), ip.spec_to_u32()),
    {
        proof {
            use_type_invariant(&*self);
        }
        let mut found = HashMap::new();
        std::mem::swap(&mut self.found, &mut found);
        found.insert(mac.to_u64(), ip.to_u32());
        self.found = found;
    }

    /// The address under which a MAC address was last seen, if it was.
    pub fn get(&self, mac: &MacAddress) -> (ip: Option<Ipv4Address>)
        ensures
            ip is Some <==> self@.contains_key(mac.spec_to_u64()),
            ip matches Some(ip) ==> ip.spec_to_u32() == self@[mac.spec_to_u64()],
    {
        let key = mac.to_u64();
        match self.found.get(&key) {
            Some(number) => Some(Ipv4Address::from_u32(*number)),
            None => None,
        }
    }

    /// Number of hosts in the book.
    pub fn len(&self) -> (n: usize)
        ensures
            n == self@.len(),
    {
        self.found.len()
    }

    /// The hosts in the book, each once, in no particular order.
    pub fn entries(&self) -> (entries: Vec<(u64, u32)>)
        ensures
            entries@.no_duplicates(),
            entries@.to_set() == self@.kv_pairs(),
            forall|k: int| 0 <= k < entries.len() ==> (#[trigger] entries[k]).0 < 0x1_0000_0000_0000,
    {
        proof {
            use_type_invariant(self);
        }
        let mut entries: Vec<(u64, u32)> = Vec::new();
        for pair in it: self.found.iter()
            invariant
                it.seq() == spec_hash_map_iter(&self.found).remaining(),
                entries@ == it.seq().unref().take(it.index() as int),
        {
            let (key, ip) = pair;
            entries.push((*key, *ip));
        }
        assert(entries@ == spec_hash_map_iter(&self.found).remaining().unref());
        assert forall|k: int| 0 <= k < entries.len() implies (#[trigger] entries[k]).0
            < 0x1_0000_0000_0000 by {
            assert(entries@.to_set().contains(entries@[k]));
            assert(self.found@.kv_pairs().contains(entries@[k]));
        }
        entries
    }

    /// Takes in a frame that the receiver read: an ARP reply enters its
    /// sender into the book, anything else is discarded.
    pub fn record(&mut self, frame: &[u8])
        ensures
            final(self)@ == recorded(old(self)@, frame@),
    {
        match parse_arp_reply(frame) {
            Some(sender) => {
                self.insert(&sender.mac, sender.ip);
            },
            None => {},
        }
    }

    /// One step of the receiver: what to do with what a read returned. A
    /// frame goes into the book and a timeout is nothing; both let the
    /// receiver go on. Any other failure ends the sweep with an error.
    pub fn on_receive(&mut self, event: &ReceiveEvent) -> (step: Result<(), SweepError>)
        ensures
            match *event {
                ReceiveEvent::Frame(frame) => step is Ok && final(self)@ == recorded(
                    old(self)@,
                    frame@,
                ),
                ReceiveEvent::TimedOut => step is Ok && final(self)@ == old(self)@,
                ReceiveEvent::Failed => step == Err::<(), SweepError>(SweepError::ReceiveFailed)
                    && final(self)@ == old(self)@,
            },
    {
        match event {
            ReceiveEvent::Frame(frame) => {
                self.record(frame.as_slice());
                Ok(())
            },
            ReceiveEvent::TimedOut => Ok(()),
            ReceiveEvent::Failed => Err(SweepError::ReceiveFailed),
        }
    }

    /// Adds the hosts of another book. Where both know a MAC address, the
    /// other book's entry stands.
    pub fn merge(&mut self, other: &SweepResult)
        ensures
            final(self)@ == merged(old(self)@, other@),
    {
        proof {
            use_type_invariant(&*self);
        }
        let entries = other.entries();
        let mut found = HashMap::new();
        std::mem::swap(&mut self.found, &mut found);
        let ghost mut done: Map<u64, u32> = Map::empty();
        let mut i: usize = 0;
        assert(found@ =~= merged(old(self)@, done));
        while i < entries.len()
            invariant
                i <= entries.len(),
                entries@.to_set() == other@.kv_pairs(),
                forall|k: int|
                    0 <= k < entries.len() ==> (#[trigger] entries[k]).0 < 0x1_0000_0000_0000,
                forall|key: u64| #[trigger] found@.contains_key(key) ==> key < 0x1_0000_0000_0000,
                found@ == merged(old(self)@, done),
                forall|key: u64| #[trigger]
                    done.contains_key(key) ==> other@.contains_key(key) && done[key] == other@[key],
                forall|k: int| 0 <= k < i ==> done.contains_key(#[trigger] entries[k].0),
            decreases entries.len() - i,
        {
            let (key, ip) = entries[i];
            proof {
                assert(entries@.to_set().contains(entries@[i as int]));
                assert(other@.kv_pairs().contains((key, ip)));
            }
            found.insert(key, ip);
            proof {
                done = done.insert(key, ip);
                assert(found@ =~= merged(old(self)@, done));
            }
            i += 1;
        }
        proof {
            assert forall|key: u64| #[trigger] other@.contains_key(key) implies done.contains_key(
                key,
            ) by {
                let pair = (key, other@[key]);
                assert(other@.kv_pairs().contains(pair));
                assert(entries@.to_set().contains(pair));
                let k = choose|k: int| 0 <= k < entries@.len() && entries@[k] == pair;
                assert(done.contains_key(entries[k].0));
            }
            assert(done =~= other@);
        }
        self.found = found;
    }
}

/// Puts the results of the interfaces of one round together. An interface
/// whose sweep failed contributes nothing; where two interfaces saw the
/// same MAC address, the later interface's entry stands.
pub fn merge_results(results: &Vec<Result<SweepResult, SweepError>>) -> (all: SweepResult)
    ensures
        all@ == merged_results(results@),
{
    let mut all = SweepResult::new();
    let mut i: usize = 0;
    while i < results.len()
        invariant
            i <= results.len(),
            all@ == merged_results(results@.take(i as int)),
        decreases results.len() - i,
    {
        proof {
            assert(results@.take(i + 1).drop_last() =~= results@.take(i as int));
            assert(results@.take(i + 1).last() == results[i as int]);
        }
        match &results[i] {
            Ok(result) => {
                all.merge(result);
            },
            Err(_) => {},
        }
        i += 1;
    }
    assert(results@.take(i as int) =~= results@);
    all
}

/// The book of a whole round: the books of the interfaces whose sweep
/// succeeded, merged in order.
pub open spec fn merged_results(results: Seq<Result<SweepResult, SweepError>>) -> Map<u64, u32>
    decreases results.len(),
{
    if results.len() == 0 {
        Map::empty()
    } else {
        let before = merged_results(results.drop_last());
        match results.last() {
            Ok(result) => merged(before, result@),
            Err(_) => before,
        }
    }
}

} // verus!
