//! ARP over Ethernet, as bytes on the wire.
//!
//! A frame is 42 bytes: a 14-byte Ethernet header (destination, source,
//! EtherType `0x0806`) and the 28-byte ARP payload for Ethernet and IPv4
//! (hardware type 1, protocol type `0x0800`, address lengths 6 and 4, the
//! operation, then sender and target, each as a MAC and an IPv4 address).

use crate::agent::net::{Ipv4Address, MacAddress};
use vstd::prelude::*;

verus! {

/// Length of an ARP frame on Ethernet.
pub const FRAME_LEN: usize = 42;

/// ARP operation: request.
pub const OP_REQUEST: u8 = 1;

/// ARP operation: reply.
pub const OP_REPLY: u8 = 2;

/// What an ARP reply says: the sender's two addresses.
#[derive(Clone, Copy, Debug, PartialEq, Eq)]
pub struct Sighting {
    pub mac: MacAddress,
    pub ip: Ipv4Address,
}

/// The Ethernet header of an ARP frame from `source` to everyone.
pub open spec fn ethernet_header(source: Seq<u8>) -> Seq<u8> {
    seq![255u8, 255u8, 255u8, 255u8, 255u8, 255u8] + source + seq![0x08u8, 0x06u8]
}

/// The fixed start of an ARP payload for Ethernet and IPv4 with the given
/// operation.
pub open spec fn arp_preamble(operation: u8) -> Seq<u8> {
    seq![0x00u8, 0x01u8, 0x08u8, 0x00u8, 6u8, 4u8, 0x00u8, operation]
}

/// The broadcast ARP request with which the host `sender_mac` at
/// `sender_ip` asks who has `target_ip`.
pub open spec fn arp_request_bytes(sender_mac: Seq<u8>, sender_ip: Seq<u8>, target_ip: Seq<u8>) -> Seq<
    u8,
>
    recommends
        sender_mac.len() == 6,
        sender_ip.len() == 4,
        target_ip.len() == 4,
{
    ethernet_header(sender_mac) + arp_preamble(OP_REQUEST) + sender_mac + sender_ip + seq![
        255u8,
        255u8,
        255u8,
        255u8,
        255u8,
        255u8,
    ] + target_ip
}

/// Whether a frame is an ARP reply: long enough, EtherType ARP, operation 2.
pub open spec fn is_arp_reply(frame: Seq<u8>) -> bool {
    &&& frame.len() >= FRAME_LEN
    &&& frame[12] == 0x08
    &&& frame[13] == 0x06
    &&& frame[20] == 0x00
    &&& frame[21] == OP_REPLY
}

/// Builds the broadcast ARP request for `target` on behalf of the interface
/// with the addresses `sender_mac` and `sender_ip`.
pub fn arp_request(sender_mac: &MacAddress, sender_ip: &Ipv4Address, target: &Ipv4Address) -> (frame:
    Vec<u8>)
    ensures
        frame@ == arp_request_bytes(sender_mac.octets@, sender_ip.octets@, target.octets@),
        frame.len() == FRAME_LEN,
{
    let everyone = MacAddress::broadcast();
    let mut frame: Vec<u8> = Vec::with_capacity(FRAME_LEN);
    frame.extend_from_slice(everyone.octets.as_slice());
    frame.extend_from_slice(sender_mac.octets.as_slice());
    frame.push(0x08);
    frame.push(0x06);
    assert(frame@ =~= ethernet_header(sender_mac.octets@));
    frame.push(0x00);
    frame.push(0x01);
    frame.push(0x08);
    frame.push(0x00);
    frame.push(6);
    frame.push(4);
    frame.push(0x00);
    frame.push(OP_REQUEST);
    assert(frame@ =~= ethernet_header(sender_mac.octets@) + arp_preamble(OP_REQUEST));
    frame.extend_from_slice(sender_mac.octets.as_slice());
    frame.extend_from_slice(sender_ip.octets.as_slice());
    frame.extend_from_slice(everyone.octets.as_slice());
    frame.extend_from_slice(target.octets.as_slice());
    assert(frame@ =~= arp_request_bytes(sender_mac.octets@, sender_ip.octets@, target.octets@));
    frame
}

/// The receiver never takes a request of the sweep for an answer.
pub proof fn lemma_request_is_no_reply(sender_mac: Seq<u8>, sender_ip: Seq<u8>, target_ip: Seq<u8>)
    requires
        sender_mac.len() == 6,
        sender_ip.len() == 4,
        target_ip.len() == 4,
    ensures
        arp_request_bytes(sender_mac, sender_ip, target_ip).len() == FRAME_LEN,
        !is_arp_reply(arp_request_bytes(sender_mac, sender_ip, target_ip)),
{
    let frame = arp_request_bytes(sender_mac, sender_ip, target_ip);
    assert(frame[21] == OP_REQUEST);
}

/// Reads a frame off the wire. Anything but an ARP reply is discarded; a
/// reply yields the addresses of the host that sent it, which stand in
/// bytes 22 to 27 (MAC) and 28 to 31 (IPv4).
pub fn parse_arp_reply(frame: &[u8]) -> (sighting: Option<Sighting>)
    ensures
        sighting is Some <==> is_arp_reply(frame@),
        sighting matches Some(s) ==> s.mac.octets@ == frame@.subrange(22, 28) && s.ip.octets@
            == frame@.subrange(28, 32),
{
    if frame.len() < FRAME_LEN {
        return None;
    }
    if frame[12] != 0x08 || frame[13] != 0x06 || frame[20] != 0x00 || frame[21] != OP_REPLY {
        return None;
    }
    let mac = MacAddress::new(frame[22], frame[23], frame[24], frame[25], frame[26], frame[27]);
    let ip = Ipv4Address::new(frame[28], frame[29], frame[30], frame[31]);
    assert(mac.octets@ =~= frame@.subrange(22, 28));
    assert(ip.octets@ =~= frame@.subrange(28, 32));
    Some(Sighting { mac, ip })
}

} // verus!
